//! Failures of operations on files, processes and connections, as plain
//! values.

use vstd::prelude::*;

verus! {

/// The one distinction the crate makes between failures of the operating
/// system: whether the thing asked for does not exist.
#[derive(Debug, Clone, Copy, PartialEq, Eq, Structural)]
pub enum IoFailureKind {
    NotFound,
    Other,
}

/// A failed operation on a file, a process or a connection: its kind and
/// its message.
#[derive(Debug)]
pub struct IoFailure {
    pub kind: IoFailureKind,
    pub message: String,
}

/// Mathematical model of an [`IoFailure`].
pub struct IoFailureView {
    pub kind: IoFailureKind,
    pub message: Seq<char>,
}

impl View for IoFailure {
    type V = IoFailureView;

    open spec fn view(&self) -> IoFailureView {
        IoFailureView { kind: self.kind, message: self.message@ }
    }
}

impl IoFailure {
    /// A failure of this kind with this message.
    pub fn new(kind: IoFailureKind, message: String) -> (failure: IoFailure)
        ensures
            failure@ == (IoFailureView { kind, message: message@ }),
    {
        IoFailure { kind, message }
    }

    /// Whether the operation failed because its target does not exist.
    pub fn is_not_found(&self) -> (missing: bool)
        ensures
            missing == (self@.kind == IoFailureKind::NotFound),
    {
        self.kind == IoFailureKind::NotFound
    }

    /// The message of the failure.
    pub fn to_string(&self) -> (text: String)
        ensures
            text@ == self@.message,
    {
        self.message.clone()
    }
}

} // verus!
