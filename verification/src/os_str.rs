//! Error types for converting raw argument tokens into typed values.
//!
//! Conversion itself (numbers, addresses, paths) is a collaborator
//! outside the dispatch engine, but its failures share one shape: either
//! the raw token was not valid Unicode text, or the text did not satisfy
//! the target type's grammar.

use vstd::prelude::*;

verus! {

/// A raw token was not valid Unicode text.
pub struct Utf8Error;

/// A conversion failure: either the target type's own parse error, or
/// the raw token was not valid Unicode text in the first place.
pub enum Error<E> {
    /// The target type's own parse error.
    Generic(E),
    /// The raw token was not valid Unicode text.
    Utf8,
}

impl<E> core::convert::From<E> for Error<E> {
    /// Wraps a target type's parse error.
    fn from(generic: E) -> (r: Error<E>) {
        Error::Generic(generic)
    }
}

impl<E> vstd::std_specs::convert::FromSpecImpl<E> for Error<E> {
    open spec fn obeys_from_spec() -> bool {
        true
    }

    open spec fn from_spec(generic: E) -> Error<E> {
        Error::Generic(generic)
    }
}

} // verus!
