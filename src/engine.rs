//! The storage engine: durable, byte-ordered records with prefix scans.
use vstd::prelude::*;

verus! {

#[verifier::external_type_specification]
#[verifier::external_body]
pub struct ExDb(sled::Db);

#[verifier::external_type_specification]
#[verifier::external_body]
pub struct ExSledError(sled::Error);

/// The records that a database handle shows to readers.
pub uninterp spec fn db_contents(db: sled::Db) -> Map<Seq<u8>, Seq<u8>>;

/// The records that a database handle would recover after a crash.
pub uninterp spec fn db_durable(db: sled::Db) -> Map<Seq<u8>, Seq<u8>>;

/// The value stored under `k`, if any.
pub open spec fn lookup(m: Map<Seq<u8>, Seq<u8>>, k: Seq<u8>) -> Option<Seq<u8>> {
    if m.contains_key(k) {
        Some(m[k])
    } else {
        None
    }
}

/// An optional byte vector seen as an optional byte sequence.
pub open spec fn opt_view(o: Option<Vec<u8>>) -> Option<Seq<u8>> {
    match o {
        Some(v) => Some(v@),
        None => None,
    }
}

/// `p` is a prefix of `k`.
pub open spec fn has_prefix(k: Seq<u8>, p: Seq<u8>) -> bool {
    p.len() <= k.len() && k.subrange(0, p.len() as int) == p
}

/// Byte-lexicographic strict order: `a` comes before `b`.
pub open spec fn key_lt(a: Seq<u8>, b: Seq<u8>) -> bool {
    exists|i: int|
        0 <= i <= a.len() && i <= b.len() && #[trigger] a.subrange(0, i) == b.subrange(0, i) && (
        (i == a.len() && i < b.len()) || (i < a.len() && i < b.len() && a[i] < b[i]))
}

/// `ks` lists exactly the keys of `m` that start with `p`, each once, in
/// ascending order.
pub open spec fn is_key_listing(m: Map<Seq<u8>, Seq<u8>>, p: Seq<u8>, ks: Seq<Seq<u8>>) -> bool {
    &&& forall|i: int| 0 <= i < ks.len() ==> has_prefix(#[trigger] ks[i], p) && m.contains_key(ks[i])
    &&& forall|k: Seq<u8>|
        #[trigger] m.contains_key(k) && has_prefix(k, p) ==> exists|i: int|
            0 <= i < ks.len() && #[trigger] ks[i] == k
    &&& forall|i: int, j: int| 0 <= i < j < ks.len() ==> key_lt(#[trigger] ks[i], #[trigger] ks[j])
}

/// `s` lists exactly the records of `m` whose key starts with `p`, each once,
/// in ascending key order.
pub open spec fn is_prefix_scan(
    m: Map<Seq<u8>, Seq<u8>>,
    p: Seq<u8>,
    s: Seq<(Seq<u8>, Seq<u8>)>,
) -> bool {
    &&& is_key_listing(m, p, s.map_values(|e: (Seq<u8>, Seq<u8>)| e.0))
    &&& forall|i: int| 0 <= i < s.len() ==> m[#[trigger] s[i].0] == s[i].1
}

/// The records held in a vector of byte pairs, as sequences.
pub open spec fn pairs_view(v: Seq<(Vec<u8>, Vec<u8>)>) -> Seq<(Seq<u8>, Seq<u8>)> {
    v.map_values(|e: (Vec<u8>, Vec<u8>)| (e.0@, e.1@))
}

/// Relies on sled::open: opens or creates the database at `path` and
/// recovers it, so that what it shows is what is on disk.
#[verifier::external_body]
fn open_db(path: &str) -> (r: Result<sled::Db, sled::Error>)
    ensures
        r matches Ok(db) ==> db_durable(db) == db_contents(db),
{
    sled::open(path)
}

/// Relies on sled::Tree::get: the value stored under `key`, copied out.
#[verifier::external_body]
fn db_get(db: &sled::Db, key: &Vec<u8>) -> (r: Result<Option<Vec<u8>>, sled::Error>)
    ensures
        r matches Ok(v) ==> opt_view(v) == lookup(db_contents(*db), key@),
{
    db.get(key.as_slice()).map(|o| o.map(|v| v.to_vec()))
}

/// Relies on sled::Tree::insert: the key now maps to the value; one failed
/// insert either took effect whole or not at all.
#[verifier::external_body]
fn db_insert(db: &mut sled::Db, key: &Vec<u8>, value: &Vec<u8>) -> (r: Result<(), sled::Error>)
    ensures
        r is Ok ==> db_contents(*final(db)) == db_contents(*old(db)).insert(key@, value@),
        r is Err ==> db_contents(*final(db)) == db_contents(*old(db)) || db_contents(*final(db))
            == db_contents(*old(db)).insert(key@, value@),
{
    db.insert(key.as_slice(), value.clone()).map(|_| ())
}

/// Relies on sled::Tree::remove: the key is absent afterwards; one failed
/// removal either took effect whole or not at all.
#[verifier::external_body]
fn db_remove(db: &mut sled::Db, key: &Vec<u8>) -> (r: Result<(), sled::Error>)
    ensures
        r is Ok ==> db_contents(*final(db)) == db_contents(*old(db)).remove(key@),
        r is Err ==> db_contents(*final(db)) == db_contents(*old(db)) || db_contents(*final(db))
            == db_contents(*old(db)).remove(key@),
{
    db.remove(key.as_slice()).map(|_| ())
}

/// Relies on sled::Tree::flush: it changes no record, and once it succeeds
/// every earlier write is recovered after a crash.
#[verifier::external_body]
fn db_flush(db: &mut sled::Db) -> (r: Result<(), sled::Error>)
    ensures
        db_contents(*final(db)) == db_contents(*old(db)),
        r is Ok ==> db_durable(*final(db)) == db_contents(*final(db)),
{
    db.flush().map(|_| ())
}

/// Relies on sled::Tree::scan_prefix: the records whose key starts with
/// `prefix`, in ascending key order, copied out.
#[verifier::external_body]
fn db_scan_prefix(db: &sled::Db, prefix: &Vec<u8>) -> (r: Result<Vec<(Vec<u8>, Vec<u8>)>, sled::Error>)
    ensures
        r matches Ok(s) ==> is_prefix_scan(db_contents(*db), prefix@, pairs_view(s@)),
{
    db.scan_prefix(prefix.as_slice()).map(|e| e.map(|(k, v)| (k.to_vec(), v.to_vec()))).collect()
}

/// Why the durable medium could not complete an operation.
#[derive(Debug, Clone, Copy, PartialEq, Eq, Structural)]
pub enum StorageError {
    /// An I/O error, or corruption found on disk.
    StorageFailure,
}

/// The storage engine. It owns its database handle alone, so every change
/// to the records goes through its methods.
pub struct Store {
    db: sled::Db,
}

impl View for Store {
    type V = Map<Seq<u8>, Seq<u8>>;

    closed spec fn view(&self) -> Map<Seq<u8>, Seq<u8>> {
        db_contents(self.db)
    }
}

impl Store {
    /// The records that would be recovered if the process died now.
    pub closed spec fn durable(&self) -> Map<Seq<u8>, Seq<u8>> {
        db_durable(self.db)
    }

    /// Opens the store kept at `path`, creating it if needed, and recovers
    /// every acknowledged write.
    pub fn open(path: &str) -> (r: Result<Store, StorageError>)
        ensures
            r matches Ok(s) ==> s.durable() == s@,
    {
        match open_db(path) {
            Ok(db) => Ok(Store { db }),
            Err(_) => Err(StorageError::StorageFailure),
        }
    }

    /// The value stored under `key`; `None` when the key is absent.
    pub fn get(&self, key: &Vec<u8>) -> (r: Result<Option<Vec<u8>>, StorageError>)
        ensures
            r matches Ok(v) ==> opt_view(v) == lookup(self@, key@),
    {
        match db_get(&self.db, key) {
            Ok(v) => Ok(v),
            Err(_) => Err(StorageError::StorageFailure),
        }
    }

    /// Stores `value` under `key`, replacing any earlier value, and returns
    /// `Ok` only once the write would survive a crash.
    pub fn put(&mut self, key: &Vec<u8>, value: &Vec<u8>) -> (r: Result<(), StorageError>)
        ensures
            r is Ok ==> final(self)@ == old(self)@.insert(key@, value@),
            r is Ok ==> final(self).durable() == final(self)@,
            r is Err ==> final(self)@ == old(self)@ || final(self)@ == old(self)@.insert(
                key@,
                value@,
            ),
    {
        match db_insert(&mut self.db, key, value) {
            Ok(()) => {},
            Err(_) => return Err(StorageError::StorageFailure),
        }
        match db_flush(&mut self.db) {
            Ok(()) => Ok(()),
            Err(_) => Err(StorageError::StorageFailure),
        }
    }

    /// Removes `key` if it is present; an absent key is no error. Returns
    /// `Ok` only once the removal would survive a crash.
    pub fn delete(&mut self, key: &Vec<u8>) -> (r: Result<(), StorageError>)
        ensures
            r is Ok ==> final(self)@ == old(self)@.remove(key@),
            r is Ok ==> final(self).durable() == final(self)@,
            r is Err ==> final(self)@ == old(self)@ || final(self)@ == old(self)@.remove(key@),
    {
        match db_remove(&mut self.db, key) {
            Ok(()) => {},
            Err(_) => return Err(StorageError::StorageFailure),
        }
        match db_flush(&mut self.db) {
            Ok(()) => Ok(()),
            Err(_) => Err(StorageError::StorageFailure),
        }
    }

    /// The records whose key starts with `prefix`, in ascending key order.
    pub fn scan_prefix(&self, prefix: &Vec<u8>) -> (r: Result<Vec<(Vec<u8>, Vec<u8>)>, StorageError>)
        ensures
            r matches Ok(s) ==> is_prefix_scan(self@, prefix@, pairs_view(s@)),
    {
        match db_scan_prefix(&self.db, prefix) {
            Ok(s) => Ok(s),
            Err(_) => Err(StorageError::StorageFailure),
        }
    }
}

} // verus!
