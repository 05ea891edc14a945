//! Laws that relate the store's operations, stated over the records that
//! `Store::get`, `Store::put` and `Store::delete` speak of.
use crate::engine::lookup;
use vstd::prelude::*;

verus! {

/// A read after a successful `put(k, v)` returns `v`.
pub proof fn put_then_get(m: Map<Seq<u8>, Seq<u8>>, k: Seq<u8>, v: Seq<u8>)
    ensures
        lookup(m.insert(k, v), k) == Some(v),
{
}

/// Of two successful writes to one key, a read returns the later value.
pub proof fn put_overwrites(m: Map<Seq<u8>, Seq<u8>>, k: Seq<u8>, v1: Seq<u8>, v2: Seq<u8>)
    ensures
        lookup(m.insert(k, v1).insert(k, v2), k) == Some(v2),
{
}

/// Deleting an absent key changes no record, and the key stays absent.
pub proof fn delete_absent_is_noop(m: Map<Seq<u8>, Seq<u8>>, k: Seq<u8>)
    requires
        lookup(m, k) is None,
    ensures
        m.remove(k) == m,
        lookup(m.remove(k), k) is None,
{
    assert(m.remove(k) =~= m);
}

/// After a successful delete the key is absent, whatever it held.
pub proof fn delete_then_get(m: Map<Seq<u8>, Seq<u8>>, k: Seq<u8>)
    ensures
        lookup(m.remove(k), k) is None,
{
}

/// Two writers of one key are applied one after the other, in whichever
/// order, so a later read returns exactly one of the two values, whole.
pub proof fn same_key_writers(m: Map<Seq<u8>, Seq<u8>>, k: Seq<u8>, v1: Seq<u8>, v2: Seq<u8>)
    ensures
        lookup(m.insert(k, v1).insert(k, v2), k) == Some(v2),
        lookup(m.insert(k, v2).insert(k, v1), k) == Some(v1),
        forall|first: Seq<u8>, second: Seq<u8>|
            (first == v1 && second == v2) || (first == v2 && second == v1) ==> {
                let r = #[trigger] lookup(m.insert(k, first).insert(k, second), k);
                r == Some(v1) || r == Some(v2)
            },
{
}

} // verus!
