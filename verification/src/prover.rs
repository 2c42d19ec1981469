//! The prover that has its proofs made by a remote service.
//!
//! [`RemoteProver`] opens a call and says what to submit. The poll loops of
//! [`crate::single`] and [`crate::batch`] then take the call to its end. All
//! waiting and all talking to the service is left to the caller.

use vstd::prelude::*;
use crate::config::{ProverConfig, ProverConfigView};
use crate::endpoint::{service_host, socket_address, spec_service_host, spec_socket_address};
use crate::jitter::{MAX_SUBMIT_JITTER_MILLIS, submit_jitter_millis};
use crate::outcome::ProverError;
use crate::record::{ProofRequest, ProofRequestView};
use crate::single::{max_polls, spec_max_polls};

verus! {

/// A single-proof call that has been opened: what to submit, how long to
/// wait before submitting it, and how many status queries may follow.
#[derive(Debug)]
pub struct ProveCall {
    /// Milliseconds to wait before the submission.
    pub delay_millis: u64,
    pub request: ProofRequest,
    /// The budget of [`crate::single::SinglePoll::begin`].
    pub max_polls: u64,
}

/// A batch call that has been opened: what to submit, at once and as one
/// group, and how many summary queries may follow.
#[derive(Debug)]
pub struct BatchProveCall {
    /// One request for each input, in the order of the inputs.
    pub requests: Vec<ProofRequest>,
    /// The number of requests.
    pub batch_size: u64,
    /// The budget of [`crate::batch::BatchPoll::begin`].
    pub max_polls: u64,
}

/// A prover that generates proofs remotely on another machine.
#[derive(Debug)]
pub struct RemoteProver {
    config: ProverConfig,
}

impl View for RemoteProver {
    type V = ProverConfigView;

    closed spec fn view(&self) -> ProverConfigView {
        self.config@
    }
}

impl Clone for RemoteProver {
    fn clone(&self) -> (copy: RemoteProver)
        ensures
            copy@ == self@,
    {
        proof {
            use_type_invariant(self);
        }
        RemoteProver { config: self.config.clone() }
    }
}

impl RemoteProver {
    #[verifier::type_invariant]
    spec fn names_a_host(self) -> bool {
        spec_service_host(self.config.service_location@).len() > 0
    }

    /// Makes a prover for `config`. The service location must name a host:
    /// one that leaves nothing after its last `://` is refused.
    pub fn new(config: ProverConfig) -> (prover: Result<RemoteProver, ProverError>)
        ensures
            match prover {
                Ok(p) => p@ == config@ && spec_service_host(config@.service_location).len() > 0,
                Err(e) => e == ProverError::Configuration && spec_service_host(
                    config@.service_location,
                ).len() == 0,
            },
    {
        let host_len: usize = service_host(config.service_location.as_str()).unicode_len();
        if host_len == 0 {
            Err(ProverError::Configuration)
        } else {
            Ok(RemoteProver { config })
        }
    }

    /// The settings that this prover was made with.
    pub fn config(&self) -> (config: &ProverConfig)
        ensures
            config@ == self@,
    {
        &self.config
    }

    /// The host of the service, which is never empty.
    pub fn service_host(&self) -> (host: &str)
        ensures
            host@ == spec_service_host(self@.service_location),
            host@.len() > 0,
    {
        proof {
            use_type_invariant(self);
        }
        service_host(self.config.service_location.as_str())
    }

    /// The socket address to resolve, once, when a client for the service is
    /// made.
    pub fn service_address(&self) -> (address: String)
        ensures
            address@ == spec_socket_address(spec_service_host(self@.service_location)),
    {
        socket_address(self.service_host())
    }

    /// Opens a call for one proof of the circuit `circuit_id` on `input`.
    ///
    /// The caller waits `delay_millis`, submits `request`, and starts the
    /// poll loop with the service's answer and `max_polls`.
    pub fn prove(&self, circuit_id: &str, input: &[u8]) -> (call: ProveCall)
        ensures
            call.delay_millis < MAX_SUBMIT_JITTER_MILLIS,
            call.request@ == (ProofRequestView { circuit_id: circuit_id@, public_input: input@ }),
            call.max_polls == spec_max_polls(self@.single_proof_timeout),
    {
        ProveCall {
            delay_millis: submit_jitter_millis(),
            request: ProofRequest::new(circuit_id, input),
            max_polls: max_polls(self.config.single_proof_timeout),
        }
    }

    /// Opens a call for one proof of the circuit `circuit_id` on each of
    /// `inputs`.
    ///
    /// The caller submits `requests` without delay, as one group, and starts
    /// the poll loop with the service's answer, `batch_size` and `max_polls`.
    pub fn batch_prove(&self, circuit_id: &str, inputs: &[Vec<u8>]) -> (call: BatchProveCall)
        ensures
            call.requests@.len() == inputs@.len(),
            forall|i: int|
                0 <= i < inputs@.len() ==> (#[trigger] call.requests@[i])@ == (ProofRequestView {
                    circuit_id: circuit_id@,
                    public_input: inputs@[i]@,
                }),
            call.batch_size == inputs@.len(),
            call.max_polls == spec_max_polls(self@.batch_proof_timeout),
    {
        let mut requests: Vec<ProofRequest> = Vec::new();
        let mut i: usize = 0;
        while i < inputs.len()
            invariant
                i <= inputs@.len(),
                requests@.len() == i,
                forall|j: int|
                    0 <= j < i ==> (#[trigger] requests@[j])@ == (ProofRequestView {
                        circuit_id: circuit_id@,
                        public_input: inputs@[j]@,
                    }),
            decreases inputs@.len() - i,
        {
            requests.push(ProofRequest::new(circuit_id, inputs[i].as_slice()));
            i = i + 1;
        }
        BatchProveCall {
            requests,
            batch_size: inputs.len() as u64,
            max_polls: max_polls(self.config.batch_proof_timeout),
        }
    }
}

} // verus!
