//! Errors that carry a kind and, optionally, the description of the error that caused them.

use vstd::prelude::*;

verus! {

/// A kind of error, as a library or a program defines it.
pub trait ErrorKind {
}

/// An error of kind `K`, caused by the error that `source` describes, if any.
#[derive(Debug)]
pub struct Error<K: ErrorKind> {
    pub kind: K,
    pub source: Option<String>,
}

impl<K: ErrorKind> Error<K> {
    /// An error of `kind` with no cause.
    pub fn from_kind(kind: K) -> (e: Error<K>)
        ensures
            e.kind == kind,
            e.source is None,
    {
        Error { kind, source: None }
    }
}

/// A value that can cause an error: it describes itself.
pub trait ErrorExt: Sized {
    /// The description of the value.
    spec fn spec_description(&self) -> Seq<char>;

    /// An error of `kind` caused by this value.
    fn wrap_as_source_of<K: ErrorKind>(self, kind: K) -> (e: Error<K>)
        ensures
            e.kind == kind,
            e.source matches Some(s) && s@ == self.spec_description(),
    ;
}

impl ErrorExt for String {
    /// A message describes itself.
    open spec fn spec_description(&self) -> Seq<char> {
        self@
    }

    fn wrap_as_source_of<K: ErrorKind>(self, kind: K) -> (e: Error<K>) {
        Error { kind, source: Some(self) }
    }
}

/// A result whose error can cause another.
pub trait ResultExt<T, E: ErrorExt>: Sized {
    /// The result with its error, if any, wrapped as the cause of an error of `kind`.
    fn map_err_as_source_of<K: ErrorKind>(self, kind: K) -> (r: Result<T, Error<K>>);
}

impl<T, E: ErrorExt> ResultExt<T, E> for Result<T, E> {
    fn map_err_as_source_of<K: ErrorKind>(self, kind: K) -> (r: Result<T, Error<K>>)
        ensures
            match self {
                Ok(value) => r == Ok::<T, Error<K>>(value),
                Err(error) => r matches Err(e) && e.kind == kind && (e.source matches Some(s)
                    && s@ == error.spec_description()),
            },
    {
        match self {
            Ok(value) => Ok(value),
            Err(error) => Err(error.wrap_as_source_of(kind)),
        }
    }
}

} // verus!
