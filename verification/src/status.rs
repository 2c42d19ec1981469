//! Identifiers and per-request status as reported by the proving service.

use vstd::prelude::*;

verus! {

/// Opaque identifier the service assigns to one submitted proof request.
#[derive(Clone, Copy, Debug, PartialEq, Eq, Hash, Structural)]
pub struct ProofId(pub u128);

/// Opaque identifier the service assigns to a group of requests submitted together.
#[derive(Clone, Copy, Debug, PartialEq, Eq, Hash, Structural)]
pub struct BatchId(pub u128);

/// Status of one proof request.
///
/// `Pending` and `Running` are not final. `Success` is the only status that
/// comes with a result. Every other status is a final failure.
#[derive(Clone, Copy, Debug, PartialEq, Eq, Hash, Structural)]
pub enum ProofRequestStatus {
    Pending,
    Running,
    Success,
    Failure,
    Cancelled,
}

impl ProofRequestStatus {
    /// The request may still change its status.
    pub open spec fn spec_is_in_progress(self) -> bool {
        self == ProofRequestStatus::Pending || self == ProofRequestStatus::Running
    }

    /// The request has ended without a result.
    pub open spec fn spec_is_terminal_failure(self) -> bool {
        !self.spec_is_in_progress() && self != ProofRequestStatus::Success
    }

    /// Whether the request may still change its status.
    #[verifier::when_used_as_spec(spec_is_in_progress)]
    pub fn is_in_progress(self) -> (b: bool)
        ensures
            b == self.spec_is_in_progress(),
    {
        match self {
            ProofRequestStatus::Pending | ProofRequestStatus::Running => true,
            _ => false,
        }
    }

    /// Whether the request has ended without a result.
    #[verifier::when_used_as_spec(spec_is_terminal_failure)]
    pub fn is_terminal_failure(self) -> (b: bool)
        ensures
            b == self.spec_is_terminal_failure(),
    {
        match self {
            ProofRequestStatus::Pending
            | ProofRequestStatus::Running
            | ProofRequestStatus::Success => false,
            _ => true,
        }
    }
}

} // verus!
