//! The failure object that boundary functions hand back by reference.

use vstd::prelude::*;

verus! {

/// Why a boundary function failed.
///
/// `E` is the error classification of the protocol library, carried through
/// unchanged. `P` is whatever was captured when the work behind a boundary
/// function terminated abnormally; nothing here looks inside it.
#[derive(Debug, PartialEq, Eq)]
pub enum SignalFfiError<E, P> {
    /// The protocol library returned an error.
    Signal(E),
    /// A required address was null.
    NullPointer,
    /// The work terminated abnormally instead of returning.
    UnexpectedPanic(P),
}

/// The three classes of boundary error, without what they carry.
#[derive(Clone, Copy, Debug, PartialEq, Eq, Structural)]
pub enum ErrorKind {
    Signal,
    NullPointer,
    UnexpectedPanic,
}

impl<E, P> SignalFfiError<E, P> {
    /// The class of this error.
    pub open spec fn spec_kind(self) -> ErrorKind {
        match self {
            SignalFfiError::Signal(_) => ErrorKind::Signal,
            SignalFfiError::NullPointer => ErrorKind::NullPointer,
            SignalFfiError::UnexpectedPanic(_) => ErrorKind::UnexpectedPanic,
        }
    }

    /// The class of this error.
    pub fn kind(&self) -> (k: ErrorKind)
        ensures
            k == self.spec_kind(),
    {
        match self {
            SignalFfiError::Signal(_) => ErrorKind::Signal,
            SignalFfiError::NullPointer => ErrorKind::NullPointer,
            SignalFfiError::UnexpectedPanic(_) => ErrorKind::UnexpectedPanic,
        }
    }
}

} // verus!
