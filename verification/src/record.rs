//! Proof requests, and the records the service keeps of them.

use vstd::prelude::*;
use vstd::slice::slice_to_vec;
use vstd::string::StringExecFns;
use crate::status::ProofRequestStatus;

verus! {

/// Mathematical value of a [`ProofRequest`].
pub struct ProofRequestView {
    pub circuit_id: Seq<char>,
    pub public_input: Seq<u8>,
}

/// One unit of work: a circuit, named by its identifier, and the public input
/// to prove it on. A request does not change once it is made.
#[derive(Debug, PartialEq, Eq)]
pub struct ProofRequest {
    circuit_id: String,
    public_input: Vec<u8>,
}

impl View for ProofRequest {
    type V = ProofRequestView;

    closed spec fn view(&self) -> ProofRequestView {
        ProofRequestView { circuit_id: self.circuit_id@, public_input: self.public_input@ }
    }
}

impl Clone for ProofRequest {
    fn clone(&self) -> (copy: ProofRequest)
        ensures
            copy@ == self@,
    {
        let public_input = self.public_input.clone();
        ProofRequest { circuit_id: self.circuit_id.clone(), public_input }
    }
}

impl ProofRequest {
    /// The request to prove the circuit `circuit_id` on `public_input`.
    pub fn new(circuit_id: &str, public_input: &[u8]) -> (request: ProofRequest)
        ensures
            request@ == (ProofRequestView { circuit_id: circuit_id@, public_input: public_input@ }),
    {
        ProofRequest {
            circuit_id: String::from_str(circuit_id),
            public_input: slice_to_vec(public_input),
        }
    }

    /// The identifier of the circuit to prove.
    pub fn circuit_id(&self) -> (id: &str)
        ensures
            id@ == self@.circuit_id,
    {
        self.circuit_id.as_str()
    }

    /// The public input to prove the circuit on.
    pub fn public_input(&self) -> (input: &[u8])
        ensures
            input@ == self@.public_input,
    {
        self.public_input.as_slice()
    }
}

/// Mathematical value of a [`ProofRecord`].
pub struct ProofRecordView {
    pub status: ProofRequestStatus,
    pub result: Option<(Seq<u8>, Seq<u8>)>,
}

impl ProofRecordView {
    /// A record holds a result exactly when its status is `Success`.
    pub open spec fn wf(self) -> bool {
        self.result is Some <==> self.status == ProofRequestStatus::Success
    }
}

/// Mathematical value of an optional proof with its public output.
pub open spec fn result_bytes(result: Option<(Vec<u8>, Vec<u8>)>) -> Option<(Seq<u8>, Seq<u8>)> {
    match result {
        Some((proof, output)) => Some((proof@, output@)),
        None => None,
    }
}

/// What the service knows of one request: its status and, once it has
/// succeeded, the proof and its public output.
#[derive(Debug, PartialEq, Eq)]
pub struct ProofRecord {
    status: ProofRequestStatus,
    result: Option<(Vec<u8>, Vec<u8>)>,
}

impl View for ProofRecord {
    type V = ProofRecordView;

    closed spec fn view(&self) -> ProofRecordView {
        ProofRecordView { status: self.status, result: result_bytes(self.result) }
    }
}

impl Clone for ProofRecord {
    fn clone(&self) -> (copy: ProofRecord)
        ensures
            copy@ == self@,
    {
        proof {
            use_type_invariant(self);
        }
        match &self.result {
            Some((proof, output)) => {
                let proof_copy = proof.clone();
                let output_copy = output.clone();
                ProofRecord { status: self.status, result: Some((proof_copy, output_copy)) }
            },
            None => ProofRecord { status: self.status, result: None },
        }
    }
}

impl ProofRecord {
    #[verifier::type_invariant]
    spec fn holds_result_iff_success(self) -> bool {
        self.result is Some <==> self.status == ProofRequestStatus::Success
    }

    /// Makes a record of a request in `status`. A request that has succeeded
    /// must come with its result: without one there is no record. A result
    /// that comes with any other status is dropped.
    pub fn new(status: ProofRequestStatus, result: Option<(Vec<u8>, Vec<u8>)>) -> (record: Option<
        ProofRecord,
    >)
        ensures
            record is None <==> status == ProofRequestStatus::Success && result is None,
            record matches Some(r) ==> r@ == (ProofRecordView {
                status,
                result: if status == ProofRequestStatus::Success {
                    result_bytes(result)
                } else {
                    None
                },
            }) && r@.wf(),
    {
        if status == ProofRequestStatus::Success {
            match result {
                Some(found) => Some(ProofRecord { status, result: Some(found) }),
                None => None,
            }
        } else {
            Some(ProofRecord { status, result: None })
        }
    }

    /// The record of a request that succeeded with `proof` and `output`.
    pub fn success(proof: Vec<u8>, output: Vec<u8>) -> (record: ProofRecord)
        ensures
            record@ == (ProofRecordView {
                status: ProofRequestStatus::Success,
                result: Some((proof@, output@)),
            }),
            record@.wf(),
    {
        ProofRecord { status: ProofRequestStatus::Success, result: Some((proof, output)) }
    }

    /// The status of the request.
    pub fn status(&self) -> (status: ProofRequestStatus)
        ensures
            status == self@.status,
            self@.wf(),
    {
        proof {
            use_type_invariant(self);
        }
        self.status
    }

    /// Takes the record apart.
    pub fn into_parts(self) -> (parts: (ProofRequestStatus, Option<(Vec<u8>, Vec<u8>)>))
        ensures
            parts.0 == self@.status,
            result_bytes(parts.1) == self@.result,
            self@.wf(),
    {
        proof {
            use_type_invariant(&self);
        }
        (self.status, self.result)
    }
}

} // verus!
