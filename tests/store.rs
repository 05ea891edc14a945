use kvstore::engine::{StorageError, Store};

fn fresh(name: &str, keys: &[&[u8]]) -> Store {
    let path = format!("/tmp/kvstore_tests/{}", name);
    let mut store = Store::open(&path).expect("open store");
    for k in keys {
        store.delete(&k.to_vec()).expect("clear key");
    }
    store
}

#[test]
fn put_then_get_returns_value() {
    let mut store = fresh("round_trip", &[b"k"]);
    store.put(&b"k".to_vec(), &b"v".to_vec()).unwrap();
    assert_eq!(store.get(&b"k".to_vec()), Ok(Some(b"v".to_vec())));
}

#[test]
fn put_binary_key_and_empty_value() {
    let key = vec![0u8, 255, 128];
    let mut store = fresh("binary", &[&key]);
    store.put(&key, &Vec::new()).unwrap();
    assert_eq!(store.get(&key), Ok(Some(Vec::new())));
}

#[test]
fn second_put_overwrites_first() {
    let mut store = fresh("overwrite", &[b"k"]);
    store.put(&b"k".to_vec(), &b"v1".to_vec()).unwrap();
    store.put(&b"k".to_vec(), &b"v2".to_vec()).unwrap();
    assert_eq!(store.get(&b"k".to_vec()), Ok(Some(b"v2".to_vec())));
}

#[test]
fn delete_of_absent_key_succeeds() {
    let mut store = fresh("delete_absent", &[b"gone"]);
    assert_eq!(store.delete(&b"gone".to_vec()), Ok(()));
    assert_eq!(store.delete(&b"gone".to_vec()), Ok(()));
    assert_eq!(store.get(&b"gone".to_vec()), Ok(None));
}

#[test]
fn delete_removes_present_key() {
    let mut store = fresh("delete_present", &[b"k"]);
    store.put(&b"k".to_vec(), &b"v".to_vec()).unwrap();
    assert_eq!(store.delete(&b"k".to_vec()), Ok(()));
    assert_eq!(store.get(&b"k".to_vec()), Ok(None));
}

#[test]
fn scan_prefix_is_ordered_and_bounded() {
    let mut store = fresh("scan", &[b"a/1", b"a/2", b"b/1"]);
    store.put(&b"b/1".to_vec(), &b"3".to_vec()).unwrap();
    store.put(&b"a/2".to_vec(), &b"2".to_vec()).unwrap();
    store.put(&b"a/1".to_vec(), &b"1".to_vec()).unwrap();
    let found = store.scan_prefix(&b"a/".to_vec()).unwrap();
    assert_eq!(
        found,
        vec![(b"a/1".to_vec(), b"1".to_vec()), (b"a/2".to_vec(), b"2".to_vec())]
    );
}

#[test]
fn scan_prefix_without_match_is_empty() {
    let store = fresh("scan_empty", &[]);
    assert_eq!(store.scan_prefix(&b"zz-none/".to_vec()), Ok(Vec::new()));
}

#[test]
fn scan_prefix_with_top_byte() {
    let mut store = fresh("scan_top", &[&[0xff, 1], &[0xff, 0xff], &[0xfe]]);
    store.put(&vec![0xff, 0xff], &b"b".to_vec()).unwrap();
    store.put(&vec![0xff, 1], &b"a".to_vec()).unwrap();
    store.put(&vec![0xfe], &b"c".to_vec()).unwrap();
    let found = store.scan_prefix(&vec![0xff]).unwrap();
    assert_eq!(
        found,
        vec![(vec![0xff, 1], b"a".to_vec()), (vec![0xff, 0xff], b"b".to_vec())]
    );
}

#[test]
fn put_survives_reopen() {
    let path = "/tmp/kvstore_tests/durable";
    {
        let mut store = Store::open(path).unwrap();
        store.put(&b"x".to_vec(), &b"y".to_vec()).unwrap();
    }
    let store = Store::open(path).unwrap();
    assert_eq!(store.get(&b"x".to_vec()), Ok(Some(b"y".to_vec())));
}

#[test]
fn missing_key_reads_as_absent() {
    let store = fresh("missing", &[b"missing"]);
    assert_eq!(store.get(&b"missing".to_vec()), Ok(None));
}

#[test]
fn concurrent_same_key_writers_leave_one_value() {
    let store = fresh("concurrent", &[b"k"]);
    let shared = std::sync::Arc::new(tokio::sync::Mutex::new(store));
    let runtime = tokio::runtime::Runtime::new().unwrap();
    runtime.block_on(async {
        let a = shared.clone();
        let b = shared.clone();
        let first = tokio::spawn(async move {
            a.lock().await.put(&b"k".to_vec(), &vec![1u8; 4096]).unwrap();
        });
        let second = tokio::spawn(async move {
            b.lock().await.put(&b"k".to_vec(), &vec![2u8; 4096]).unwrap();
        });
        first.await.unwrap();
        second.await.unwrap();
    });
    let value = runtime.block_on(async { shared.lock().await.get(&b"k".to_vec()) });
    let value = value.unwrap().unwrap();
    assert!(value == vec![1u8; 4096] || value == vec![2u8; 4096]);
}

#[test]
fn storage_error_is_comparable() {
    assert_eq!(StorageError::StorageFailure, StorageError::StorageFailure);
}
