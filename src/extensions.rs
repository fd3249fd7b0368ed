use std::collections::HashMap;
use vstd::prelude::*;

verus! {

broadcast use vstd::std_specs::hash::group_hash_axioms;

/// Identity token of a stored value's type: one entry per token.
pub type TypeKey = u64;

/// What a map holds under `k`, as an option.
pub open spec fn lookup<V>(m: Map<TypeKey, V>, k: TypeKey) -> Option<V> {
    if m.dom().contains(k) {
        Some(m[k])
    } else {
        None
    }
}

/// A per-request bag of values, at most one under each type token.
pub struct Extensions<V> {
    map: HashMap<TypeKey, V>,
}

impl<V> View for Extensions<V> {
    type V = Map<TypeKey, V>;

    closed spec fn view(&self) -> Map<TypeKey, V> {
        self.map@
    }
}

impl<V> Extensions<V> {
    /// An empty bag.
    pub fn new() -> (r: Self)
        ensures
            r@ == Map::<TypeKey, V>::empty(),
    {
        Extensions { map: HashMap::new() }
    }

    /// Stores `value` under `key`, replacing and returning what was there.
    pub fn insert(&mut self, key: TypeKey, value: V) -> (r: Option<V>)
        ensures
            final(self)@ == old(self)@.insert(key, value),
            r == lookup(old(self)@, key),
    {
        self.map.insert(key, value)
    }

    /// Borrows the value under `key`, leaving the bag as it is.
    pub fn get(&self, key: TypeKey) -> (r: Option<&V>)
        ensures
            match r {
                Some(v) => lookup(self@, key) == Some(*v),
                None => lookup(self@, key) is None,
            },
    {
        self.map.get(&key)
    }

    /// Whether the bag holds a value under `key`.
    pub fn contains(&self, key: TypeKey) -> (r: bool)
        ensures
            r == self@.dom().contains(key),
    {
        self.map.contains_key(&key)
    }

    /// Detaches the value under `key` and hands it over; the bag keeps no entry for `key`.
    pub fn remove(&mut self, key: TypeKey) -> (r: Option<V>)
        ensures
            final(self)@ == old(self)@.remove(key),
            r == lookup(old(self)@, key),
    {
        self.map.remove(&key)
    }

    /// Detaches the value under `key` and converts it with `downcast`; a value
    /// that does not convert counts as absent (it is detached all the same).
    pub fn remove_as<T, F: Fn(V) -> Option<T>>(&mut self, key: TypeKey, downcast: F) -> (r: Option<
        T,
    >)
        requires
            forall|v: V| downcast.requires((v,)),
        ensures
            final(self)@ == old(self)@.remove(key),
            match lookup(old(self)@, key) {
                None => r is None,
                Some(v) => downcast.ensures((v,), r),
            },
    {
        match self.remove(key) {
            Some(v) => downcast(v),
            None => None,
        }
    }

    /// Empties the bag.
    pub fn clear(&mut self)
        ensures
            final(self)@ == Map::<TypeKey, V>::empty(),
    {
        self.map.clear()
    }
}

} // verus!
