//! Errors that a caller of the Xenstore interface can get.

use crate::wire::{XsMessage, XsMessageType};
use vstd::prelude::*;

verus! {

/// Coarse class of an [`XsError`], for callers that only tell these apart.
#[derive(Clone, Copy, Debug, PartialEq, Eq, Structural)]
pub enum XsErrorKind {
    /// The other side sent something that cannot be an answer.
    InvalidData,
    /// The operation does not exist on this interface.
    Unsupported,
    /// The Xenstore daemon refused the operation.
    Refused,
}

/// What went wrong with an operation on the Xenstore.
#[derive(Debug, PartialEq, Eq)]
pub enum XsError {
    /// The daemon answered with this error message.
    Refused(XsMessage),
    /// The daemon answered with a message of a type that does not fit.
    UnexpectedResponse(XsMessageType),
    /// A payload that should hold text is not valid UTF-8.
    InvalidText,
    /// The operation is not implemented by this interface.
    Unsupported,
}

impl XsError {
    /// The class of an error.
    pub open spec fn spec_kind(self) -> XsErrorKind {
        match self {
            XsError::Refused(_) => XsErrorKind::Refused,
            XsError::UnexpectedResponse(_) => XsErrorKind::InvalidData,
            XsError::InvalidText => XsErrorKind::InvalidData,
            XsError::Unsupported => XsErrorKind::Unsupported,
        }
    }

    /// The class this error belongs to.
    pub fn kind(&self) -> (kind: XsErrorKind)
        ensures
            kind == self.spec_kind(),
    {
        match self {
            XsError::Refused(_) => XsErrorKind::Refused,
            XsError::UnexpectedResponse(_) => XsErrorKind::InvalidData,
            XsError::InvalidText => XsErrorKind::InvalidData,
            XsError::Unsupported => XsErrorKind::Unsupported,
        }
    }
}

/// A refusal of the daemon is told apart from what is no answer, and both from what an
/// interface does not do.
pub proof fn law_error_has_its_class(error: XsError, kind: XsErrorKind)
    requires
        call_ensures(XsError::kind, (&error,), kind),
    ensures
        kind == XsErrorKind::Refused <==> error is Refused,
        kind == XsErrorKind::InvalidData <==> error is UnexpectedResponse || error is InvalidText,
        kind == XsErrorKind::Unsupported <==> error is Unsupported,
{
}

} // verus!
