//! The error condition, with ownership recovery.
//!
//! Every operation that manipulates a mapping can fail; the failure value
//! carries back whatever resource the operation would otherwise have
//! discarded, so the caller may retry, inspect, or drop it (and dropping
//! then triggers the normal release).

use vstd::prelude::*;

verus! {

/// The underlying failure behind an [`Error`].
#[derive(Clone, Copy, Debug, PartialEq, Eq, Structural)]
pub enum OsError {
    /// A parameter-consistency failure: a mutually inconsistent parameter
    /// combination was rejected before any mapping primitive was invoked
    /// (the "invalid argument" category).
    InvalidInput,
    /// A data-validity failure: a length that cannot be represented in
    /// the platform's length type.
    InvalidData,
    /// An error number reported by a mapping primitive.
    Errno(i32),
}

/// The error condition.
///
/// This type is mostly a wrapper for an [`OsError`] with one additional
/// feature: it conveys ownership of a mapping.  This enables the pattern
/// where an old mapping stays valid until a conversion operation has
/// succeeded.  If the operation is unsuccessful, the old mapping is
/// returned along with the error condition.
#[derive(Debug)]
pub struct Error<M> {
    /// The previous ownership that could not be converted.
    pub map: M,

    /// The underlying error.
    pub err: OsError,
}

impl From<OsError> for Error<()> {
    fn from(value: OsError) -> (r: Self) {
        Error { map: (), err: value }
    }
}

impl vstd::std_specs::convert::FromSpecImpl<OsError> for Error<()> {
    open spec fn obeys_from_spec() -> bool {
        true
    }

    open spec fn from_spec(value: OsError) -> Self {
        Error { map: (), err: value }
    }
}

impl<M> From<Error<M>> for OsError {
    fn from(value: Error<M>) -> (r: Self) {
        value.err
    }
}

impl<M> vstd::std_specs::convert::FromSpecImpl<Error<M>> for OsError {
    open spec fn obeys_from_spec() -> bool {
        true
    }

    open spec fn from_spec(value: Error<M>) -> Self {
        value.err
    }
}

} // verus!
