//! Failures of operating-system calls, as plain values.
use vstd::prelude::*;

verus! {

/// The kinds of operating-system failure the library tells apart.
#[derive(Debug, Clone, Copy, PartialEq, Eq, Structural)]
pub enum IoFailureKind {
    NotFound,
    PermissionDenied,
    Other,
}

/// An operating-system failure: its kind and the message it is shown with.
#[derive(Debug, Clone)]
pub struct IoFailure {
    pub kind: IoFailureKind,
    pub message: String,
}

impl IoFailure {
    pub fn new(kind: IoFailureKind, message: &str) -> (r: IoFailure)
        ensures
            r.kind == kind,
            r.message@ == message@,
    {
        IoFailure { kind, message: crate::text::string_of(message) }
    }

    pub fn kind(&self) -> (r: IoFailureKind)
        ensures
            r == self.kind,
    {
        self.kind
    }

    /// The message the failure is shown with.
    pub fn to_text(&self) -> (r: String)
        ensures
            r@ == self.message@,
    {
        self.message.clone()
    }
}

} // verus!
