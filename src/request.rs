use crate::extensions::{Extensions, TypeKey};
use vstd::prelude::*;

verus! {

/// The per-request context: it owns the request's extension bag for its whole lifetime.
pub struct Request<V> {
    extensions: Extensions<V>,
    path: String,
}

impl<V> Request<V> {
    /// What the request's bag holds.
    pub closed spec fn bag(&self) -> Map<TypeKey, V> {
        self.extensions@
    }

    /// The request path.
    pub closed spec fn path_view(&self) -> Seq<char> {
        self.path@
    }

    /// A request for `path`, with an empty bag.
    pub fn new(path: String) -> (r: Self)
        ensures
            r.bag() == Map::<TypeKey, V>::empty(),
            r.path_view() == path@,
    {
        Request { extensions: Extensions::new(), path }
    }

    /// The request path.
    pub fn path(&self) -> (r: &str)
        ensures
            r@ == self.path_view(),
    {
        self.path.as_str()
    }

    /// Shared access to the bag.
    pub fn extensions(&self) -> (r: &Extensions<V>)
        ensures
            r@ == self.bag(),
    {
        &self.extensions
    }

    /// Exclusive access to the bag; the path stays as it is.
    pub fn extensions_mut(&mut self) -> (r: &mut Extensions<V>)
        ensures
            r@ == old(self).bag(),
            final(self).bag() == final(r)@,
            final(self).path_view() == old(self).path_view(),
    {
        &mut self.extensions
    }
}

} // verus!
