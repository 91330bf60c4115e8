//! Errors and diagnostics of the compositing core.

use vstd::prelude::*;

verus! {

/// What a fallible operation of the library reports to its caller.
#[derive(Clone, Copy, Debug, PartialEq, Eq, Structural)]
pub enum ClipError {
    /// A frame buffer was asked for with a width or a height of zero.
    InvalidDimension,
    /// A slot index beyond the last slot of a layer.
    SlotOutOfRange,
    /// A blend-mode encoding that names none of the modes.
    UnknownBlendMode,
}

/// The four families an error or a diagnostic belongs to.
#[derive(Clone, Copy, Debug, PartialEq, Eq, Structural)]
pub enum ErrorKind {
    /// Reported at once to whoever constructs a resource.
    Construction,
    /// The request was rejected and the state is as before.
    Addressing,
    /// A control message was dropped.
    Protocol,
    /// An invariant of the scene was found broken; the operation was cut short.
    Consistency,
}

impl ClipError {
    /// The family of this error.
    pub open spec fn spec_kind(self) -> ErrorKind {
        match self {
            ClipError::InvalidDimension => ErrorKind::Construction,
            ClipError::SlotOutOfRange => ErrorKind::Addressing,
            ClipError::UnknownBlendMode => ErrorKind::Addressing,
        }
    }

    /// The family of this error.
    pub fn kind(&self) -> (k: ErrorKind)
        ensures
            k == self.spec_kind(),
    {
        match self {
            ClipError::InvalidDimension => ErrorKind::Construction,
            ClipError::SlotOutOfRange => ErrorKind::Addressing,
            ClipError::UnknownBlendMode => ErrorKind::Addressing,
        }
    }
}

} // verus!
