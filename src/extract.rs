use crate::extensions::{lookup, TypeKey};
use crate::request::Request;
use vstd::prelude::*;

verus! {

/// A value moved out of the request's bag: the handler owns it, the bag no longer holds it.
#[derive(Debug, Clone)]
pub struct ReqDataMove<T>(T);

impl<T> View for ReqDataMove<T> {
    type V = T;

    closed spec fn view(&self) -> T {
        self.0
    }
}

/// Why a binding failed: the bag held no value of the requested type.
/// The type name and the path are for server-side diagnostics only.
#[derive(Debug, Clone)]
pub struct MissingExtension {
    type_label: &'static str,
    path: String,
}

/// Status code of the failure outcome: an internal server error.
pub const INTERNAL_SERVER_ERROR: u16 = 500;

/// The body that the client sees when a binding fails.
pub const MISSING_MESSAGE: &'static str = "Missing expected request extension data";

impl MissingExtension {
    /// The request path, as recorded when the binding failed.
    pub closed spec fn path_view(&self) -> Seq<char> {
        self.path@
    }

    /// The name of the type that was asked for.
    pub closed spec fn label_view(&self) -> Seq<char> {
        self.type_label@
    }

    /// The name of the type that was asked for.
    pub fn type_label(&self) -> (r: &'static str)
        ensures
            r@ == self.label_view(),
    {
        self.type_label
    }

    /// The request path.
    pub fn path(&self) -> (r: &str)
        ensures
            r@ == self.path_view(),
    {
        self.path.as_str()
    }

    /// The status of the response that the failure leads to.
    pub fn status_code(&self) -> (r: u16)
        ensures
            r == INTERNAL_SERVER_ERROR,
    {
        INTERNAL_SERVER_ERROR
    }

    /// The body shown to the client; it names neither the type nor the path.
    pub fn client_message(&self) -> (r: &'static str)
        ensures
            r == MISSING_MESSAGE,
    {
        MISSING_MESSAGE
    }
}

impl<T> ReqDataMove<T> {
    /// Consumes the wrapper, returning its wrapped data.
    pub fn into_inner(self) -> (r: T)
        ensures
            r == self@,
    {
        self.0
    }

    /// Read access to the wrapped data.
    pub fn get_ref(&self) -> (r: &T)
        ensures
            *r == self@,
    {
        &self.0
    }

    /// Binds a `T` by moving it out of the request's bag.
    ///
    /// The entry under `key` is removed whatever it holds; `downcast` turns the
    /// detached value into a `T` and fails closed: a mismatch counts as absent.
    /// `label` names `T` in the failure's diagnostics.
    pub fn from_request<V, F: Fn(V) -> Option<T>>(
        req: &mut Request<V>,
        key: TypeKey,
        label: &'static str,
        downcast: F,
    ) -> (r: Result<ReqDataMove<T>, MissingExtension>)
        requires
            forall|v: V| downcast.requires((v,)),
        ensures
            final(req).bag() == old(req).bag().remove(key),
            final(req).path_view() == old(req).path_view(),
            match lookup(old(req).bag(), key) {
                None => r is Err,
                Some(v) => match r {
                    Ok(d) => downcast.ensures((v,), Some(d@)),
                    Err(_) => downcast.ensures((v,), None),
                },
            },
            r matches Err(e) ==> e.path_view() == old(req).path_view() && e.label_view()
                == label@,
    {
        match req.extensions_mut().remove_as(key, downcast) {
            Some(t) => Ok(ReqDataMove(t)),
            None => Err(
                MissingExtension { type_label: label, path: req.path().to_owned() },
            ),
        }
    }
}

impl<T> std::ops::Deref for ReqDataMove<T> {
    type Target = T;

    fn deref(&self) -> (r: &T)
        ensures
            *r == self@,
    {
        &self.0
    }
}

/// The optional adapter: a failed binding becomes "no value" instead of an error.
pub fn optional<T, E>(bound: Result<T, E>) -> (r: Option<T>)
    ensures
        r == match bound {
            Ok(t) => Some(t),
            Err(_) => None::<T>,
        },
{
    match bound {
        Ok(t) => Some(t),
        Err(_) => None,
    }
}

} // verus!
