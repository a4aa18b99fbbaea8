//! Failures, as the library reports them and as its caller reports them to
//! the library.

use vstd::prelude::*;

verus! {

/// What went wrong.
#[derive(Clone, Copy, Debug, PartialEq, Eq, Structural)]
pub enum ErrorKind {
    /// The credentials cannot be used.
    Config,
    /// A request did not get through.
    RemoteQuery,
    /// A response was not of the expected shape.
    Decode,
    /// The eligibility table has no line for the release asked for.
    UnmappedDistributionVersion,
    /// The pattern for build requirements does not compile.
    Pattern,
}

/// A failure of the library, ready to be logged.
#[derive(Clone, Debug, PartialEq, Eq)]
pub struct Failure {
    pub kind: ErrorKind,
    pub message: String,
}

pub struct FailureView {
    pub kind: ErrorKind,
    pub message: Seq<char>,
}

impl View for Failure {
    type V = FailureView;

    open spec fn view(&self) -> FailureView {
        FailureView { kind: self.kind, message: self.message@ }
    }
}

/// How a request failed, as its sender saw it.
#[derive(Clone, Copy, Debug, PartialEq, Eq, Structural)]
pub enum FaultKind {
    /// No response arrived.
    Transport,
    /// A response arrived and could not be read as what was asked for.
    Decode,
}

/// A failed request: its kind and what the sender has to say about it.
#[derive(Clone, Debug, PartialEq, Eq)]
pub struct Fault {
    pub kind: FaultKind,
    pub detail: String,
}

pub struct FaultView {
    pub kind: FaultKind,
    pub detail: Seq<char>,
}

impl View for Fault {
    type V = FaultView;

    open spec fn view(&self) -> FaultView {
        FaultView { kind: self.kind, detail: self.detail@ }
    }
}

/// The kind of failure that a fault of `kind` becomes.
pub open spec fn kind_of_fault(kind: FaultKind) -> ErrorKind {
    match kind {
        FaultKind::Transport => ErrorKind::RemoteQuery,
        FaultKind::Decode => ErrorKind::Decode,
    }
}

impl Failure {
    /// A failure of `kind` that says `message`.
    pub fn new(kind: ErrorKind, message: String) -> (failure: Failure)
        ensures
            failure@ == (FailureView { kind, message: message@ }),
    {
        Failure { kind, message }
    }
}

impl FaultKind {
    /// The kind of failure that this fault becomes.
    pub fn error_kind(self) -> (kind: ErrorKind)
        ensures
            kind == kind_of_fault(self),
    {
        match self {
            FaultKind::Transport => ErrorKind::RemoteQuery,
            FaultKind::Decode => ErrorKind::Decode,
        }
    }
}

} // verus!
