//! The request dispatcher: four operations over the storage engine, with
//! their outcomes mapped to a small error taxonomy.
use crate::engine::{has_prefix, is_key_listing, lookup, pairs_view, StorageError, Store};
use vstd::prelude::*;
use vstd::utf8::{encode_utf8, valid_utf8};

verus! {

/// A request that names one key.
pub struct KeyRequest {
    pub key: Vec<u8>,
}

/// A record as it crosses the service boundary.
pub struct KeyValuePair {
    pub key: Vec<u8>,
    pub value: Vec<u8>,
}

/// A request for the keys that start with `prefix`.
pub struct KeysRequest {
    pub prefix: Vec<u8>,
}

/// The keys that matched a prefix, as text, in ascending order.
pub struct KeysResponse {
    pub keys: Vec<String>,
}

/// What a caller of the service is told when an operation fails.
#[derive(Debug, Clone, Copy, PartialEq, Eq, Structural)]
pub enum ServiceError {
    /// The requested key does not exist.
    NotFound,
    /// The store failed, or a listed key is not valid text.
    Internal,
}

/// Relies on String::from_utf8: it succeeds exactly on valid UTF-8, and the
/// string it builds holds those very bytes.
#[verifier::external_body]
fn decode_text(bytes: Vec<u8>) -> (r: Option<String>)
    ensures
        r is Some <==> valid_utf8(bytes@),
        r matches Some(s) ==> encode_utf8(s@) == bytes@,
{
    String::from_utf8(bytes).ok()
}

/// Every key of the records in `s` is valid UTF-8.
pub open spec fn all_keys_text(s: Seq<(Seq<u8>, Seq<u8>)>) -> bool {
    forall|i: int| 0 <= i < s.len() ==> valid_utf8(#[trigger] s[i].0)
}

/// `keys` holds, in order, the texts whose encodings are the keys of `s`.
pub open spec fn texts_of_keys(s: Seq<(Seq<u8>, Seq<u8>)>, keys: Seq<String>) -> bool {
    &&& keys.len() == s.len()
    &&& forall|i: int| 0 <= i < s.len() ==> encode_utf8(#[trigger] keys[i]@) == s[i].0
}

/// The keys, as bytes, that a list of texts encodes.
pub open spec fn encoded_keys(keys: Seq<String>) -> Seq<Seq<u8>> {
    keys.map_values(|t: String| encode_utf8(t@))
}

impl ServiceError {
    /// A short description of the failure for the caller.
    pub fn message(&self) -> (r: &'static str)
        ensures
            *self == ServiceError::NotFound ==> r@ == "No entry found for the specified key"@,
            *self == ServiceError::Internal ==> r@ == "Error occurred in the storage engine"@,
    {
        match self {
            ServiceError::NotFound => "No entry found for the specified key",
            ServiceError::Internal => "Error occurred in the storage engine",
        }
    }
}

/// The answer to a fetch of `key`, given what the engine read.
pub fn lookup_response(key: Vec<u8>, read: Result<Option<Vec<u8>>, StorageError>) -> (r: Result<
    KeyValuePair,
    ServiceError,
>)
    ensures
        match read {
            Ok(Some(v)) => r matches Ok(p) && p.key@ == key@ && p.value@ == v@,
            Ok(None) => r == Err::<KeyValuePair, ServiceError>(ServiceError::NotFound),
            Err(_) => r == Err::<KeyValuePair, ServiceError>(ServiceError::Internal),
        },
{
    match read {
        Ok(Some(value)) => Ok(KeyValuePair { key, value }),
        Ok(None) => Err(ServiceError::NotFound),
        Err(_) => Err(ServiceError::Internal),
    }
}

/// The answer to a write, given how the engine fared: the request echoed
/// back on success.
pub fn write_response<T>(request: T, outcome: Result<(), StorageError>) -> (r: Result<T, ServiceError>)
    ensures
        outcome is Ok ==> r == Ok::<T, ServiceError>(request),
        outcome is Err ==> r == Err::<T, ServiceError>(ServiceError::Internal),
{
    match outcome {
        Ok(()) => Ok(request),
        Err(_) => Err(ServiceError::Internal),
    }
}

/// The answer to a key listing, given what the engine scanned: every key as
/// text, or `Internal` when the scan failed or some key is not valid UTF-8.
pub fn listing_response(scanned: Result<Vec<(Vec<u8>, Vec<u8>)>, StorageError>) -> (r: Result<
    KeysResponse,
    ServiceError,
>)
    ensures
        match scanned {
            Ok(s) => if all_keys_text(pairs_view(s@)) {
                r matches Ok(resp) && texts_of_keys(pairs_view(s@), resp.keys@)
            } else {
                r == Err::<KeysResponse, ServiceError>(ServiceError::Internal)
            },
            Err(_) => r == Err::<KeysResponse, ServiceError>(ServiceError::Internal),
        },
{
    if scanned.is_err() {
        return Err(ServiceError::Internal);
    }
    let entries = scanned.unwrap();
    let ghost sv = pairs_view(entries@);
    let mut keys: Vec<String> = Vec::new();
    let mut i: usize = 0;
    while i < entries.len()
        invariant
            sv == pairs_view(entries@),
            scanned matches Ok(e) && e@ == entries@,
            i <= entries.len(),
            keys.len() == i,
            forall|j: int| 0 <= j < i ==> valid_utf8(#[trigger] sv[j].0),
            forall|j: int| 0 <= j < i ==> encode_utf8(#[trigger] keys@[j]@) == sv[j].0,
        decreases entries.len() - i,
    {
        let key = entries[i].0.clone();
        match decode_text(key) {
            Some(text) => keys.push(text),
            None => {
                assert(!valid_utf8(sv[i as int].0));
                return Err(ServiceError::Internal);
            },
        }
        i = i + 1;
    }
    Ok(KeysResponse { keys })
}

/// The key-value service: fetch, delete, insert and list keys by prefix,
/// over one store.
pub struct SledKeyValueStorage {
    database: Store,
}

impl View for SledKeyValueStorage {
    type V = Map<Seq<u8>, Seq<u8>>;

    closed spec fn view(&self) -> Map<Seq<u8>, Seq<u8>> {
        self.database@
    }
}

impl SledKeyValueStorage {
    /// The records that would be recovered if the process died now.
    pub closed spec fn durable(&self) -> Map<Seq<u8>, Seq<u8>> {
        self.database.durable()
    }

    /// Serves the given store.
    pub fn new(database: Store) -> (r: SledKeyValueStorage)
        ensures
            r@ == database@,
            r.durable() == database.durable(),
    {
        SledKeyValueStorage { database }
    }

    /// Fetches the record under the requested key: `NotFound` when it is
    /// absent, `Internal` when the store fails.
    pub fn find_by_key(&self, request: KeyRequest) -> (r: Result<KeyValuePair, ServiceError>)
        ensures
            r matches Ok(p) ==> p.key@ == request.key@ && lookup(self@, request.key@) == Some(
                p.value@,
            ),
            r == Err::<KeyValuePair, ServiceError>(ServiceError::NotFound) ==> lookup(
                self@,
                request.key@,
            ) is None,
    {
        let read = self.database.get(&request.key);
        lookup_response(request.key, read)
    }

    /// Deletes the requested key if present and echoes the request; an
    /// absent key is no error.
    pub fn delete(&mut self, request: KeyRequest) -> (r: Result<KeyRequest, ServiceError>)
        ensures
            r matches Ok(k) ==> k.key@ == request.key@ && final(self)@ == old(self)@.remove(
                request.key@,
            ) && final(self).durable() == final(self)@,
            r matches Err(e) ==> e == ServiceError::Internal && (final(self)@ == old(self)@
                || final(self)@ == old(self)@.remove(request.key@)),
    {
        let outcome = self.database.delete(&request.key);
        write_response(request, outcome)
    }

    /// Stores the requested pair, replacing any earlier value, and echoes it.
    pub fn insert(&mut self, request: KeyValuePair) -> (r: Result<KeyValuePair, ServiceError>)
        ensures
            r matches Ok(p) ==> p.key@ == request.key@ && p.value@ == request.value@
                && final(self)@ == old(self)@.insert(request.key@, request.value@)
                && final(self).durable() == final(self)@,
            r matches Err(e) ==> e == ServiceError::Internal && (final(self)@ == old(self)@
                || final(self)@ == old(self)@.insert(request.key@, request.value@)),
    {
        let outcome = self.database.put(&request.key, &request.value);
        write_response(request, outcome)
    }

    /// Lists, as text and in ascending order, every key that starts with the
    /// requested prefix. Fails with `Internal` when the store fails or when
    /// one of those keys is not valid UTF-8.
    pub fn keys(&self, request: KeysRequest) -> (r: Result<KeysResponse, ServiceError>)
        ensures
            r matches Ok(resp) ==> is_key_listing(
                self@,
                request.prefix@,
                encoded_keys(resp.keys@),
            ),
            r matches Err(e) ==> e == ServiceError::Internal,
            (exists|k: Seq<u8>|
                #[trigger] self@.contains_key(k) && has_prefix(k, request.prefix@)
                    && !valid_utf8(k)) ==> r is Err,
    {
        let scanned = self.database.scan_prefix(&request.prefix);
        let r = listing_response(scanned);
        proof {
            if scanned is Ok {
                let sv = pairs_view(scanned->Ok_0@);
                let ks = sv.map_values(|e: (Seq<u8>, Seq<u8>)| e.0);
                if r is Ok {
                    let keys = r->Ok_0.keys@;
                    assert(encoded_keys(keys) =~= ks);
                }
                if exists|k: Seq<u8>|
                    #[trigger] self@.contains_key(k) && has_prefix(k, request.prefix@)
                        && !valid_utf8(k) {
                    let k = choose|k: Seq<u8>|
                        #[trigger] self@.contains_key(k) && has_prefix(k, request.prefix@)
                            && !valid_utf8(k);
                    let i = choose|i: int| 0 <= i < ks.len() && #[trigger] ks[i] == k;
                    assert(!valid_utf8(sv[i].0));
                    assert(!all_keys_text(sv));
                }
            }
        }
        r
    }
}

} // verus!
