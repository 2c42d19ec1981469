//! The poll loop of a single proof, as a state machine.
//!
//! The machine makes every decision of the loop and performs none of its
//! waiting or querying. A caller holds a [`SingleStep`]. While it is
//! `Poll(state)`, the caller waits [`POLL_INTERVAL_SECS`] seconds, asks the
//! service for the record of `state.proof_id()`, and hands what came back to
//! [`SinglePoll::step`], which gives the next step. `Done` ends the call.
//!
//! A query that fails ends the call at once, as a hard failure: it is not
//! tried again, and it is for the caller to start a new call. The batch loop
//! of [`crate::batch`] is more patient and takes a failed query for a lost
//! poll. The two loops differ in this, and each says so in its contract.

use vstd::prelude::*;
use crate::outcome::{ProverError, ProverOutput, ProverOutputView, result_view};
use crate::record::{ProofRecord, ProofRecordView};
use crate::status::{ProofId, ProofRequestStatus};

verus! {

/// Seconds to wait before each status query.
pub const POLL_INTERVAL_SECS: u64 = 10;

/// The number of status queries that fit in a budget of `timeout_secs` seconds.
pub open spec fn spec_max_polls(timeout_secs: u64) -> u64 {
    timeout_secs / POLL_INTERVAL_SECS
}

/// Computes the number of status queries that fit in `timeout_secs` seconds.
#[verifier::when_used_as_spec(spec_max_polls)]
pub fn max_polls(timeout_secs: u64) -> (polls: u64)
    ensures
        polls == spec_max_polls(timeout_secs),
{
    timeout_secs / POLL_INTERVAL_SECS
}

/// How the service answered a submission.
#[derive(Clone, Copy, Debug, PartialEq, Eq, Structural)]
pub enum SubmitOutcome {
    Accepted(ProofId),
    Rejected,
}

/// How the service answered a status query.
#[derive(Debug, PartialEq, Eq)]
pub enum QueryOutcome {
    Record(ProofRecord),
    Failed,
}

/// Mathematical value of a [`QueryOutcome`].
pub enum QueryOutcomeView {
    Record(ProofRecordView),
    Failed,
}

impl View for QueryOutcome {
    type V = QueryOutcomeView;

    open spec fn view(&self) -> QueryOutcomeView {
        match *self {
            QueryOutcome::Record(record) => QueryOutcomeView::Record(record@),
            QueryOutcome::Failed => QueryOutcomeView::Failed,
        }
    }
}

impl QueryOutcomeView {
    /// The record, if there is one, holds a result exactly when it shows
    /// `Success`.
    pub open spec fn wf(self) -> bool {
        self matches QueryOutcomeView::Record(record) ==> record.wf()
    }
}

/// Mathematical value of a [`SinglePoll`]: a loop that owes a query.
pub struct SinglePollView {
    pub proof_id: ProofId,
    /// Queries answered so far.
    pub polls: nat,
    /// Queries the budget allows.
    pub max_polls: nat,
    /// The status that the last answer gave; `Pending` before the first.
    pub status: ProofRequestStatus,
}

impl SinglePollView {
    /// The budget allows the query that is owed.
    pub open spec fn wf(self) -> bool {
        self.polls < self.max_polls
    }
}

/// Mathematical value of a [`SingleStep`].
pub enum SingleStepView {
    Poll(SinglePollView),
    Done(Result<ProverOutputView, ProverError>),
}

/// The step that follows the service's answer to the submission.
///
/// A rejected submission ends the call. An accepted one starts the loop,
/// unless the budget allows no query at all: then the call times out at once,
/// with the status that a request has before anything is known of it.
pub open spec fn spec_begin(outcome: SubmitOutcome, max_polls: nat) -> SingleStepView {
    match outcome {
        SubmitOutcome::Rejected => SingleStepView::Done(Err(ProverError::Submission)),
        SubmitOutcome::Accepted(proof_id) => if max_polls == 0 {
            SingleStepView::Done(
                Err(ProverError::ProofTimeout { proof_id, status: ProofRequestStatus::Pending }),
            )
        } else {
            SingleStepView::Poll(
                SinglePollView {
                    proof_id,
                    polls: 0,
                    max_polls,
                    status: ProofRequestStatus::Pending,
                },
            )
        },
    }
}

/// The step that follows the answer `event` to the query that `state` owed.
///
/// - A failed query ends the call.
/// - `Success` ends it with the proof and the output of the record.
/// - `Pending` and `Running` go on to the next query while the budget lasts;
///   the answer that uses up the budget ends the call as timed out.
/// - Any other status ends the call as failed, however much budget is left.
pub open spec fn spec_step(state: SinglePollView, event: QueryOutcomeView) -> SingleStepView
    recommends
        state.wf(),
        event.wf(),
{
    match event {
        QueryOutcomeView::Failed => SingleStepView::Done(
            Err(ProverError::Query { proof_id: state.proof_id }),
        ),
        QueryOutcomeView::Record(record) => if record.status == ProofRequestStatus::Success {
            let found = record.result->0;
            SingleStepView::Done(Ok(ProverOutputView::Local(found.0, found.1)))
        } else if record.status.is_in_progress() {
            if state.polls + 1 < state.max_polls {
                SingleStepView::Poll(
                    SinglePollView {
                        proof_id: state.proof_id,
                        polls: state.polls + 1,
                        max_polls: state.max_polls,
                        status: record.status,
                    },
                )
            } else {
                SingleStepView::Done(
                    Err(
                        ProverError::ProofTimeout {
                            proof_id: state.proof_id,
                            status: record.status,
                        },
                    ),
                )
            }
        } else {
            SingleStepView::Done(
                Err(ProverError::ProofFailed { proof_id: state.proof_id, status: record.status }),
            )
        },
    }
}

/// Where a call stands after the service has answered `events`, one query
/// each and in this order, to a caller that started at `step`. Answers that
/// come after the call has ended are never asked for, and change nothing.
pub open spec fn spec_run(step: SingleStepView, events: Seq<QueryOutcomeView>) -> SingleStepView
    decreases events.len(),
{
    if events.len() == 0 {
        step
    } else {
        match step {
            SingleStepView::Poll(state) => spec_run(
                spec_step(state, events[0]),
                events.drop_first(),
            ),
            SingleStepView::Done(_) => step,
        }
    }
}

/// The number of queries that a caller makes who starts at `step` and gets
/// the answers `events`.
pub open spec fn spec_queries(step: SingleStepView, events: Seq<QueryOutcomeView>) -> nat
    decreases events.len(),
{
    if events.len() == 0 {
        0
    } else {
        match step {
            SingleStepView::Poll(state) => 1 + spec_queries(
                spec_step(state, events[0]),
                events.drop_first(),
            ),
            SingleStepView::Done(_) => 0,
        }
    }
}

/// The answer is the record of a request that is still pending or running.
pub open spec fn is_in_progress_answer(event: QueryOutcomeView) -> bool {
    event matches QueryOutcomeView::Record(record) && record.status.is_in_progress()
}

/// The status that the loop remembers after `polls` answers out of `events`.
pub open spec fn status_after(events: Seq<QueryOutcomeView>, polls: nat) -> ProofRequestStatus
    recommends
        polls <= events.len(),
{
    if polls == 0 {
        ProofRequestStatus::Pending
    } else {
        events[polls - 1]->Record_0.status
    }
}

/// A loop that owes the service a status query.
///
/// A value of this type always has budget for the query it owes.
#[derive(Debug, PartialEq, Eq)]
pub struct SinglePoll {
    proof_id: ProofId,
    polls: u64,
    max_polls: u64,
    status: ProofRequestStatus,
}

/// Where a call stands: it owes a query, or it has ended.
#[derive(Debug, PartialEq, Eq)]
pub enum SingleStep {
    Poll(SinglePoll),
    Done(Result<ProverOutput, ProverError>),
}

impl View for SinglePoll {
    type V = SinglePollView;

    closed spec fn view(&self) -> SinglePollView {
        SinglePollView {
            proof_id: self.proof_id,
            polls: self.polls as nat,
            max_polls: self.max_polls as nat,
            status: self.status,
        }
    }
}

impl View for SingleStep {
    type V = SingleStepView;

    open spec fn view(&self) -> SingleStepView {
        match *self {
            SingleStep::Poll(state) => SingleStepView::Poll(state@),
            SingleStep::Done(result) => SingleStepView::Done(result_view(result)),
        }
    }
}

impl SinglePoll {
    #[verifier::type_invariant]
    spec fn has_budget(self) -> bool {
        self.polls < self.max_polls
    }

    /// Starts the loop from the service's answer to the submission, with a
    /// budget of `max_polls` queries.
    pub fn begin(outcome: SubmitOutcome, max_polls: u64) -> (step: SingleStep)
        ensures
            step@ == spec_begin(outcome, max_polls as nat),
    {
        match outcome {
            SubmitOutcome::Rejected => SingleStep::Done(Err(ProverError::Submission)),
            SubmitOutcome::Accepted(proof_id) => {
                if max_polls == 0 {
                    SingleStep::Done(
                        Err(
                            ProverError::ProofTimeout {
                                proof_id,
                                status: ProofRequestStatus::Pending,
                            },
                        ),
                    )
                } else {
                    SingleStep::Poll(
                        SinglePoll {
                            proof_id,
                            polls: 0,
                            max_polls,
                            status: ProofRequestStatus::Pending,
                        },
                    )
                }
            },
        }
    }

    /// Takes the answer to the query that this state owed, and decides how
    /// the call goes on.
    pub fn step(self, event: QueryOutcome) -> (next: SingleStep)
        ensures
            self@.wf(),
            event@.wf(),
            next@ == spec_step(self@, event@),
    {
        proof {
            use_type_invariant(&self);
        }
        match event {
            QueryOutcome::Failed => SingleStep::Done(
                Err(ProverError::Query { proof_id: self.proof_id }),
            ),
            QueryOutcome::Record(record) => {
                let (status, result) = record.into_parts();
                if let Some((proof, output)) = result {
                    SingleStep::Done(Ok(ProverOutput::Local(proof, output)))
                } else if status.is_in_progress() {
                    if self.polls + 1 < self.max_polls {
                        SingleStep::Poll(
                            SinglePoll {
                                proof_id: self.proof_id,
                                polls: self.polls + 1,
                                max_polls: self.max_polls,
                                status,
                            },
                        )
                    } else {
                        SingleStep::Done(
                            Err(ProverError::ProofTimeout { proof_id: self.proof_id, status }),
                        )
                    }
                } else {
                    SingleStep::Done(
                        Err(ProverError::ProofFailed { proof_id: self.proof_id, status }),
                    )
                }
            },
        }
    }

    /// The request whose record is to be queried.
    pub fn proof_id(&self) -> (proof_id: ProofId)
        ensures
            proof_id == self@.proof_id,
    {
        self.proof_id
    }

    /// Seconds to wait before the query.
    pub fn delay_secs(&self) -> (secs: u64)
        ensures
            secs == POLL_INTERVAL_SECS,
    {
        POLL_INTERVAL_SECS
    }

    /// Queries answered so far.
    pub fn polls(&self) -> (polls: u64)
        ensures
            polls == self@.polls,
            self@.wf(),
    {
        proof {
            use_type_invariant(self);
        }
        self.polls
    }

    /// Queries the budget allows.
    pub fn max_polls(&self) -> (max_polls: u64)
        ensures
            max_polls == self@.max_polls,
            self@.wf(),
    {
        proof {
            use_type_invariant(self);
        }
        self.max_polls
    }

    /// The status that the last answer gave; `Pending` before the first.
    pub fn last_status(&self) -> (status: ProofRequestStatus)
        ensures
            status == self@.status,
    {
        self.status
    }
}

proof fn lemma_skip_in_progress(state: SinglePollView, events: Seq<QueryOutcomeView>, k: nat)
    requires
        state.wf(),
        k <= events.len(),
        state.polls + k < state.max_polls,
        forall|i: int| 0 <= i < k ==> is_in_progress_answer(#[trigger] events[i]),
    ensures
        spec_run(SingleStepView::Poll(state), events) == spec_run(
            SingleStepView::Poll(
                SinglePollView {
                    proof_id: state.proof_id,
                    polls: state.polls + k,
                    max_polls: state.max_polls,
                    status: if k == 0 {
                        state.status
                    } else {
                        status_after(events, k)
                    },
                },
            ),
            events.skip(k as int),
        ),
        spec_queries(SingleStepView::Poll(state), events) == k + spec_queries(
            SingleStepView::Poll(
                SinglePollView {
                    proof_id: state.proof_id,
                    polls: state.polls + k,
                    max_polls: state.max_polls,
                    status: if k == 0 {
                        state.status
                    } else {
                        status_after(events, k)
                    },
                },
            ),
            events.skip(k as int),
        ),
    decreases k,
{
    if k == 0 {
        assert(events.skip(0) =~= events);
    } else {
        let next = SinglePollView {
            proof_id: state.proof_id,
            polls: state.polls + 1,
            max_polls: state.max_polls,
            status: events[0]->Record_0.status,
        };
        let rest = events.drop_first();
        lemma_skip_in_progress(next, rest, (k - 1) as nat);
        assert(rest.skip(k - 1) =~= events.skip(k as int));
    }
}

/// No run makes more queries than its budget allows, whatever the service
/// answers and however many answers are at hand.
pub proof fn lemma_queries_within_budget(
    outcome: SubmitOutcome,
    timeout_secs: u64,
    events: Seq<QueryOutcomeView>,
)
    ensures
        spec_queries(spec_begin(outcome, spec_max_polls(timeout_secs) as nat), events)
            <= timeout_secs / POLL_INTERVAL_SECS,
{
    let start = spec_begin(outcome, spec_max_polls(timeout_secs) as nat);
    if let SingleStepView::Poll(state) = start {
        lemma_queries_within_remaining_budget(state, events);
    }
}

proof fn lemma_queries_within_remaining_budget(state: SinglePollView, events: Seq<QueryOutcomeView>)
    requires
        state.wf(),
    ensures
        spec_queries(SingleStepView::Poll(state), events) <= state.max_polls - state.polls,
    decreases events.len(),
{
    if events.len() > 0 {
        match spec_step(state, events[0]) {
            SingleStepView::Poll(next) => {
                lemma_queries_within_remaining_budget(next, events.drop_first());
            },
            SingleStepView::Done(result) => {
                lemma_run_of_done(SingleStepView::Done(result), events.drop_first());
            },
        }
    }
}

/// A request whose first record shows `Success` is answered with the proof
/// and the output of that record, after exactly one query.
///
/// This needs a budget of at least one query, that is a timeout of no less
/// than the poll interval: with a shorter one the call times out before it
/// has asked anything.
pub proof fn lemma_success_on_first_poll(
    proof_id: ProofId,
    timeout_secs: u64,
    proof: Seq<u8>,
    output: Seq<u8>,
    later: Seq<QueryOutcomeView>,
)
    requires
        timeout_secs >= POLL_INTERVAL_SECS,
    ensures
        ({
            let start = spec_begin(
                SubmitOutcome::Accepted(proof_id),
                spec_max_polls(timeout_secs) as nat,
            );
            let first = QueryOutcomeView::Record(
                ProofRecordView {
                    status: ProofRequestStatus::Success,
                    result: Some((proof, output)),
                },
            );
            &&& spec_run(start, seq![first] + later) == SingleStepView::Done(
                Ok(ProverOutputView::Local(proof, output)),
            )
            &&& spec_queries(start, seq![first] + later) == 1
        }),
{
    let first = QueryOutcomeView::Record(
        ProofRecordView { status: ProofRequestStatus::Success, result: Some((proof, output)) },
    );
    let done = SingleStepView::Done(Ok(ProverOutputView::Local(proof, output)));
    lemma_run_of_done(done, (seq![first] + later).drop_first());
}

proof fn lemma_run_of_done(step: SingleStepView, events: Seq<QueryOutcomeView>)
    requires
        step is Done,
    ensures
        spec_run(step, events) == step,
        spec_queries(step, events) == 0,
{
}

/// A service that keeps answering `Pending` or `Running` is asked exactly as
/// often as the budget allows, which is the timeout divided by the poll
/// interval, rounded down. The call then ends as timed out, with the last
/// status that it saw.
pub proof fn lemma_never_finished_times_out(
    proof_id: ProofId,
    timeout_secs: u64,
    events: Seq<QueryOutcomeView>,
)
    requires
        events.len() >= timeout_secs / POLL_INTERVAL_SECS,
        forall|i: int| 0 <= i < events.len() ==> is_in_progress_answer(#[trigger] events[i]),
    ensures
        ({
            let polls = spec_max_polls(timeout_secs) as nat;
            let start = spec_begin(SubmitOutcome::Accepted(proof_id), polls);
            &&& spec_run(start, events) == SingleStepView::Done(
                Err(ProverError::ProofTimeout { proof_id, status: status_after(events, polls) }),
            )
            &&& spec_queries(start, events) == polls
        }),
{
    let polls = spec_max_polls(timeout_secs) as nat;
    let start = spec_begin(SubmitOutcome::Accepted(proof_id), polls);
    if polls > 0 {
        let k = (polls - 1) as nat;
        lemma_skip_in_progress(start->Poll_0, events, k);
        let rest = events.skip(k as int);
        let last = SinglePollView {
            proof_id,
            polls: k,
            max_polls: polls,
            status: if k == 0 {
                ProofRequestStatus::Pending
            } else {
                status_after(events, k)
            },
        };
        lemma_run_of_done(spec_step(last, rest[0]), rest.drop_first());
    }
}

/// A record with a final status other than `Success` ends the call as failed
/// with that status, on the very query that brought it: the rest of the
/// budget is left unused.
pub proof fn lemma_failure_ends_at_once(
    proof_id: ProofId,
    timeout_secs: u64,
    events: Seq<QueryOutcomeView>,
    k: nat,
)
    requires
        k < events.len(),
        k < timeout_secs / POLL_INTERVAL_SECS,
        forall|i: int| 0 <= i < k ==> is_in_progress_answer(#[trigger] events[i]),
        events[k as int] is Record,
        events[k as int]->Record_0.status.is_terminal_failure(),
    ensures
        ({
            let start = spec_begin(
                SubmitOutcome::Accepted(proof_id),
                spec_max_polls(timeout_secs) as nat,
            );
            &&& spec_run(start, events) == SingleStepView::Done(
                Err(
                    ProverError::ProofFailed {
                        proof_id,
                        status: events[k as int]->Record_0.status,
                    },
                ),
            )
            &&& spec_queries(start, events) == k + 1
        }),
{
    let polls = spec_max_polls(timeout_secs) as nat;
    let start = spec_begin(SubmitOutcome::Accepted(proof_id), polls);
    lemma_skip_in_progress(start->Poll_0, events, k);
    let rest = events.skip(k as int);
    let at = SinglePollView {
        proof_id,
        polls: k,
        max_polls: polls,
        status: if k == 0 {
            ProofRequestStatus::Pending
        } else {
            status_after(events, k)
        },
    };
    lemma_run_of_done(spec_step(at, rest[0]), rest.drop_first());
}

} // verus!
