//! What a call hands back to its caller: the proof, or the reason there is none.

use vstd::prelude::*;
use crate::status::{BatchId, ProofId, ProofRequestStatus};

verus! {

/// Why a call ended without a proof.
#[derive(Clone, Copy, Debug, PartialEq, Eq, Structural)]
pub enum ProverError {
    /// The settings cannot be used: the service location is missing or
    /// names no host, or a timeout is not a number of seconds.
    Configuration,
    /// The service did not accept the submission.
    Submission,
    /// A status query for a single proof failed.
    Query { proof_id: ProofId },
    /// The service reported a final status other than `Success`.
    ProofFailed { proof_id: ProofId, status: ProofRequestStatus },
    /// The poll budget ran out; `status` is the last one seen.
    ProofTimeout { proof_id: ProofId, status: ProofRequestStatus },
    /// At least one member of the batch failed.
    BatchFailed { batch_id: BatchId, failed: u64, succeeded: u64 },
    /// The poll budget of the batch ran out.
    BatchTimeout { batch_id: BatchId },
    /// The service reported only successes, but not as many as were submitted.
    BatchInconsistent { batch_id: BatchId, succeeded: u64, expected: u64 },
}

/// Mathematical value of a [`ProverOutput`].
pub enum ProverOutputView {
    Local(Seq<u8>, Seq<u8>),
    Remote(Seq<ProofId>),
}

/// The result of a successful call.
///
/// `Local` holds the proof and its public output, fetched from the service.
/// `Remote` holds the identifiers under which the service keeps the results,
/// one per submitted input and in the order of submission.
#[derive(Debug, PartialEq, Eq)]
pub enum ProverOutput {
    Local(Vec<u8>, Vec<u8>),
    Remote(Vec<ProofId>),
}

impl View for ProverOutput {
    type V = ProverOutputView;

    open spec fn view(&self) -> ProverOutputView {
        match *self {
            ProverOutput::Local(proof, output) => ProverOutputView::Local(proof@, output@),
            ProverOutput::Remote(proof_ids) => ProverOutputView::Remote(proof_ids@),
        }
    }
}

impl Clone for ProverOutput {
    fn clone(&self) -> (copy: ProverOutput)
        ensures
            copy@ == self@,
    {
        match self {
            ProverOutput::Local(proof, output) => {
                let proof_copy = proof.clone();
                let output_copy = output.clone();
                ProverOutput::Local(proof_copy, output_copy)
            },
            ProverOutput::Remote(proof_ids) => {
                let ids_copy = proof_ids.clone();
                ProverOutput::Remote(ids_copy)
            },
        }
    }
}

/// The result of a successful batch call. It is always `Remote`.
pub type ProverOutputs = ProverOutput;

/// Mathematical value of a call's result.
pub open spec fn result_view(r: Result<ProverOutput, ProverError>) -> Result<
    ProverOutputView,
    ProverError,
> {
    match r {
        Ok(output) => Ok(output@),
        Err(e) => Err(e),
    }
}

} // verus!
