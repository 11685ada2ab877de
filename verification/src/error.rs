use vstd::prelude::*;

verus! {

/// The coarse failure kinds that the repository surfaces to its callers.
#[derive(Clone, Copy, PartialEq, Eq, Structural, Debug)]
pub enum ErrorKind {
    /// Malformed caller input: a bad identifier string, a page number of zero.
    InvalidInput,
    /// A load or find matched no document.
    NotFound,
    /// The process-wide connection was requested before it was established.
    ConnectionUnavailable,
    /// An insert, update, delete, find, count or aggregate call failed underneath.
    StoreOperationFailed,
    /// A payload could not be converted to or from the store's document format.
    SerializationFailed,
}

/// A repository failure: a coarse kind plus a short fixed description.
/// The underlying low-level cause is never carried here; callers see only
/// the kind and the tag.
#[derive(Debug)]
pub struct Error {
    pub kind: ErrorKind,
    pub tag: &'static str,
}

impl Error {
    pub fn new(kind: ErrorKind, tag: &'static str) -> (e: Error)
        ensures
            e.kind == kind,
            e.tag == tag,
    {
        Error { kind, tag }
    }

    /// The short fixed description, offered in place of `Display`.
    pub fn message(&self) -> (r: &'static str)
        ensures
            r == self.tag,
    {
        self.tag
    }
}

/// Folds an arbitrary failure into a repository [`Error`] of the given kind,
/// keeping the success value untouched.
pub trait ResultExtention<A>: Sized {
    spec fn is_success(&self) -> bool;

    spec fn success_value(&self) -> A;

    fn has_err(self, kind: ErrorKind, err_text: &'static str) -> (r: Result<A, Error>)
        ensures
            self.is_success() ==> r is Ok && r->Ok_0 == self.success_value(),
            !self.is_success() ==> r is Err && r->Err_0.kind == kind
                && r->Err_0.tag == err_text,
    ;
}

impl<A, E> ResultExtention<A> for Result<A, E> {
    open spec fn is_success(&self) -> bool {
        self is Ok
    }

    open spec fn success_value(&self) -> A {
        self->Ok_0
    }

    fn has_err(self, kind: ErrorKind, err_text: &'static str) -> (r: Result<A, Error>) {
        match self {
            Ok(t) => Ok(t),
            Err(_) => Err(Error { kind, tag: err_text }),
        }
    }
}

} // verus!
