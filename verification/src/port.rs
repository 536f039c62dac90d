//! What crosses a capability port: classified errors, and the fence that ties
//! a command to one topology publication.

use vstd::prelude::*;

verus! {

/// Why a port refused a request.
#[derive(Debug, Clone, Copy, PartialEq, Eq, Structural)]
pub enum PortErrorKind {
    /// What the caller composed contradicts itself; repeating it cannot help.
    InvalidData,
    /// The physical state belongs to another generation for now.
    Conflict,
    /// The physical state cannot be reached for now.
    Unavailable,
}

/// A refused port request.
#[derive(Debug, Clone, PartialEq, Eq)]
pub struct PortError {
    kind: PortErrorKind,
    message: String,
}

/// The two things a [`PortError`] says.
pub struct PortErrorView {
    /// The class of the refusal.
    pub kind: PortErrorKind,
    /// Its text.
    pub message: Seq<char>,
}

/// The outcome of a port request.
pub type PortResult<T> = Result<T, PortError>;

/// Whether a refusal of this kind may pass when the request is repeated.
pub open spec fn retryable(kind: PortErrorKind) -> bool {
    kind != PortErrorKind::InvalidData
}

impl View for PortError {
    type V = PortErrorView;

    closed spec fn view(&self) -> PortErrorView {
        PortErrorView { kind: self.kind, message: self.message@ }
    }
}

impl PortError {
    /// Builds an error of the given kind with the given text.
    pub fn new(kind: PortErrorKind, message: String) -> (error: Self)
        ensures
            error@.kind == kind,
            error@.message == message@,
    {
        PortError { kind, message }
    }

    /// Returns the class of the refusal.
    pub fn kind(&self) -> (kind: PortErrorKind)
        ensures
            kind == self@.kind,
    {
        self.kind
    }

    /// Returns the text of the refusal.
    pub fn message(&self) -> (message: &String)
        ensures
            message@ == self@.message,
    {
        &self.message
    }

    /// Returns whether repeating the request may succeed.
    pub fn is_retryable(&self) -> (answer: bool)
        ensures
            answer == retryable(self@.kind),
    {
        match self.kind {
            PortErrorKind::InvalidData => false,
            PortErrorKind::Conflict => true,
            PortErrorKind::Unavailable => true,
        }
    }
}

/// The topology publication that a command expects to act on.
#[derive(Debug, Clone, Copy, PartialEq, Eq, Structural)]
pub struct CommandTopologyFence {
    sequence: u64,
}

impl View for CommandTopologyFence {
    type V = u64;

    closed spec fn view(&self) -> u64 {
        self.sequence
    }
}

impl CommandTopologyFence {
    /// Builds the fence for one publication sequence.
    pub fn new(sequence: u64) -> (fence: Self)
        ensures
            fence@ == sequence,
    {
        CommandTopologyFence { sequence }
    }

    /// Returns the publication sequence that the command expects.
    pub fn expected_sequence(self) -> (sequence: u64)
        ensures
            sequence == self@,
    {
        self.sequence
    }
}

/// Two fences for one sequence are the same fence.
pub proof fn law_fence_is_its_sequence(a: CommandTopologyFence, b: CommandTopologyFence)
    requires
        a@ == b@,
    ensures
        a == b,
{
}

} // verus!
