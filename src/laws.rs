use crate::extensions::{lookup, TypeKey};
use vstd::prelude::*;

verus! {

/// The bag that results from inserting `ops` into `m`, in order.
pub open spec fn after_inserts<V>(m: Map<TypeKey, V>, ops: Seq<(TypeKey, V)>) -> Map<TypeKey, V>
    decreases ops.len(),
{
    if ops.len() == 0 {
        m
    } else {
        after_inserts(m, ops.drop_last()).insert(ops.last().0, ops.last().1)
    }
}

/// The value of the last insertion under `k` in `ops`, if there is one.
pub open spec fn last_inserted<V>(ops: Seq<(TypeKey, V)>, k: TypeKey) -> Option<V>
    decreases ops.len(),
{
    if ops.len() == 0 {
        None
    } else if ops.last().0 == k {
        Some(ops.last().1)
    } else {
        last_inserted(ops.drop_last(), k)
    }
}

/// After a run of insertions, the bag holds under `k` the last value inserted
/// under `k`, or what it held before if none was.
pub proof fn lemma_lookup_after_inserts<V>(m: Map<TypeKey, V>, ops: Seq<(TypeKey, V)>, k: TypeKey)
    ensures
        lookup(after_inserts(m, ops), k) == match last_inserted(ops, k) {
            Some(v) => Some(v),
            None => lookup(m, k),
        },
    decreases ops.len(),
{
    if ops.len() > 0 {
        lemma_lookup_after_inserts(m, ops.drop_last(), k);
    }
}

/// A value inserted before extraction is extracted exactly once: the first
/// removal yields the last value inserted under its type, and any later
/// removal under that type yields nothing.
pub proof fn lemma_extract_once<V>(ops: Seq<(TypeKey, V)>, k: TypeKey, later: Seq<(TypeKey, V)>)
    requires
        exists|i: int| 0 <= i < ops.len() && ops[i].0 == k,
        forall|i: int| 0 <= i < later.len() ==> later[i].0 != k,
    ensures
        lookup(after_inserts(Map::empty(), ops), k) is Some,
        lookup(after_inserts(Map::empty(), ops), k) == last_inserted(ops, k),
        lookup(after_inserts(after_inserts(Map::empty(), ops).remove(k), later), k) is None,
{
    let e = Map::<TypeKey, V>::empty();
    lemma_lookup_after_inserts(e, ops, k);
    lemma_inserted_some(ops, k);
    lemma_never_inserted(later, k);
    lemma_lookup_after_inserts(after_inserts(e, ops).remove(k), later, k);
}

proof fn lemma_inserted_some<V>(ops: Seq<(TypeKey, V)>, k: TypeKey)
    requires
        exists|i: int| 0 <= i < ops.len() && ops[i].0 == k,
    ensures
        last_inserted(ops, k) is Some,
    decreases ops.len(),
{
    let i = choose|i: int| 0 <= i < ops.len() && ops[i].0 == k;
    if ops.last().0 != k {
        assert(ops.drop_last()[i].0 == k);
        lemma_inserted_some(ops.drop_last(), k);
    }
}

proof fn lemma_never_inserted<V>(ops: Seq<(TypeKey, V)>, k: TypeKey)
    requires
        forall|i: int| 0 <= i < ops.len() ==> ops[i].0 != k,
    ensures
        last_inserted(ops, k) is None,
    decreases ops.len(),
{
    if ops.len() > 0 {
        assert(ops.last().0 != k);
        lemma_never_inserted(ops.drop_last(), k);
    }
}

/// A type under which nothing was ever inserted is absent from the bag.
pub proof fn lemma_never_inserted_absent<V>(ops: Seq<(TypeKey, V)>, k: TypeKey)
    requires
        forall|i: int| 0 <= i < ops.len() ==> ops[i].0 != k,
    ensures
        lookup(after_inserts(Map::empty(), ops), k) is None,
{
    lemma_never_inserted(ops, k);
    lemma_lookup_after_inserts(Map::empty(), ops, k);
}

/// Extraction leaves no copy behind: after removing `k`, a lookup of `k` finds nothing.
pub proof fn lemma_no_residue<V>(m: Map<TypeKey, V>, k: TypeKey)
    ensures
        lookup(m.remove(k), k) is None,
{
}

/// A second insertion under the same type replaces the first: extraction
/// yields the second value, and after it nothing is left of either.
pub proof fn lemma_overwrite<V>(m: Map<TypeKey, V>, k: TypeKey, first: V, second: V)
    ensures
        lookup(m.insert(k, first).insert(k, second), k) == Some(second),
        lookup(m.insert(k, first).insert(k, second).remove(k), k) is None,
{
}

} // verus!
