//! The poll loop of a batch of proofs, as a state machine.
//!
//! A caller holds a [`BatchStep`]. While it is `Poll(state)`, the caller waits
//! [`POLL_INTERVAL_SECS`] seconds, asks the service for the status summary of
//! `state.batch_id()`, and hands what came back to [`BatchPoll::step`], which
//! gives the next step. `Done` ends the call.
//!
//! A query that fails costs one query of the budget and nothing more: the loop
//! goes on as if the summary had shown a batch in progress.

use vstd::prelude::*;
use crate::outcome::{ProverError, ProverOutput, ProverOutputView, result_view};
use crate::single::{POLL_INTERVAL_SECS, spec_max_polls};
use crate::status::{BatchId, ProofId, ProofRequestStatus};
use crate::summary::{BatchStatusSummary, SummaryViolation, Verdict, count_of, spec_verdict};

verus! {

/// How the service answered the submission of a batch. An accepted batch has
/// an identifier of its own, and one proof identifier for each request, in
/// the order of the requests.
#[derive(Debug, PartialEq, Eq)]
pub enum BatchSubmitOutcome {
    Accepted(BatchId, Vec<ProofId>),
    Rejected,
}

/// Mathematical value of a [`BatchSubmitOutcome`].
pub enum BatchSubmitOutcomeView {
    Accepted(BatchId, Seq<ProofId>),
    Rejected,
}

impl View for BatchSubmitOutcome {
    type V = BatchSubmitOutcomeView;

    open spec fn view(&self) -> BatchSubmitOutcomeView {
        match *self {
            BatchSubmitOutcome::Accepted(batch_id, proof_ids) => BatchSubmitOutcomeView::Accepted(
                batch_id,
                proof_ids@,
            ),
            BatchSubmitOutcome::Rejected => BatchSubmitOutcomeView::Rejected,
        }
    }
}

impl Clone for BatchSubmitOutcome {
    fn clone(&self) -> (copy: BatchSubmitOutcome)
        ensures
            copy@ == self@,
    {
        match self {
            BatchSubmitOutcome::Accepted(batch_id, proof_ids) => {
                let ids_copy = proof_ids.clone();
                BatchSubmitOutcome::Accepted(*batch_id, ids_copy)
            },
            BatchSubmitOutcome::Rejected => BatchSubmitOutcome::Rejected,
        }
    }
}

/// How the service answered a query for the summary of a batch.
#[derive(Clone, Copy, Debug, PartialEq, Eq)]
pub enum BatchQueryOutcome {
    Summary(BatchStatusSummary),
    Failed,
}

/// Mathematical value of a [`BatchQueryOutcome`].
pub enum BatchQueryOutcomeView {
    Summary(Map<ProofRequestStatus, u64>),
    Failed,
}

impl View for BatchQueryOutcome {
    type V = BatchQueryOutcomeView;

    open spec fn view(&self) -> BatchQueryOutcomeView {
        match *self {
            BatchQueryOutcome::Summary(summary) => BatchQueryOutcomeView::Summary(summary@),
            BatchQueryOutcome::Failed => BatchQueryOutcomeView::Failed,
        }
    }
}

/// Mathematical value of a [`BatchPoll`]: a loop that owes a query.
pub struct BatchPollView {
    pub batch_id: BatchId,
    /// The identifiers that the service gave at submission, in its order.
    pub proof_ids: Seq<ProofId>,
    /// The number of requests that were submitted.
    pub batch_size: u64,
    /// Queries answered so far.
    pub polls: nat,
    /// Queries the budget allows.
    pub max_polls: nat,
}

impl BatchPollView {
    /// The budget allows the query that is owed.
    pub open spec fn wf(self) -> bool {
        self.polls < self.max_polls
    }
}

/// Mathematical value of a [`BatchStep`].
pub enum BatchStepView {
    Poll(BatchPollView),
    Done(Result<ProverOutputView, ProverError>),
}

/// The step that follows the service's answer to the submission of
/// `batch_size` requests.
///
/// A rejected submission ends the call. An accepted one starts the loop,
/// unless the budget allows no query at all: then the call times out at once.
pub open spec fn spec_begin(
    outcome: BatchSubmitOutcomeView,
    batch_size: u64,
    max_polls: nat,
) -> BatchStepView {
    match outcome {
        BatchSubmitOutcomeView::Rejected => BatchStepView::Done(Err(ProverError::Submission)),
        BatchSubmitOutcomeView::Accepted(batch_id, proof_ids) => if max_polls == 0 {
            BatchStepView::Done(Err(ProverError::BatchTimeout { batch_id }))
        } else {
            BatchStepView::Poll(
                BatchPollView { batch_id, proof_ids, batch_size, polls: 0, max_polls },
            )
        },
    }
}

/// The step after an answer that decides nothing: the next query while the
/// budget lasts, and the end of the call as timed out once it is used up.
pub open spec fn spec_keep_polling(state: BatchPollView) -> BatchStepView {
    if state.polls + 1 < state.max_polls {
        BatchStepView::Poll(
            BatchPollView {
                batch_id: state.batch_id,
                proof_ids: state.proof_ids,
                batch_size: state.batch_size,
                polls: state.polls + 1,
                max_polls: state.max_polls,
            },
        )
    } else {
        BatchStepView::Done(Err(ProverError::BatchTimeout { batch_id: state.batch_id }))
    }
}

/// The step that follows the answer `event` to the query that `state` owed.
///
/// - A failed query decides nothing.
/// - A summary with a failed member ends the call as failed, with the counts
///   of failed and of succeeded members.
/// - A summary of a batch that has succeeded as a whole ends the call with the
///   proof identifiers, as the service gave them at submission.
/// - A summary that names `Success` alone with another count than the size of
///   the batch ends the call as inconsistent.
/// - Any other summary decides nothing.
pub open spec fn spec_step(state: BatchPollView, event: BatchQueryOutcomeView) -> BatchStepView
    recommends
        state.wf(),
{
    match event {
        BatchQueryOutcomeView::Failed => spec_keep_polling(state),
        BatchQueryOutcomeView::Summary(summary) => match spec_verdict(summary, state.batch_size) {
            Ok(Verdict::Failed { failed, succeeded }) => BatchStepView::Done(
                Err(ProverError::BatchFailed { batch_id: state.batch_id, failed, succeeded }),
            ),
            Ok(Verdict::AllSucceeded) => BatchStepView::Done(
                Ok(ProverOutputView::Remote(state.proof_ids)),
            ),
            Ok(Verdict::InProgress) => spec_keep_polling(state),
            Err(violation) => BatchStepView::Done(
                Err(
                    ProverError::BatchInconsistent {
                        batch_id: state.batch_id,
                        succeeded: violation.succeeded,
                        expected: violation.expected,
                    },
                ),
            ),
        },
    }
}

/// Where a batch call stands after the service has answered `events`, one
/// query each and in this order, to a caller that started at `step`. Answers
/// that come after the call has ended are never asked for, and change nothing.
pub open spec fn spec_run(step: BatchStepView, events: Seq<BatchQueryOutcomeView>) -> BatchStepView
    decreases events.len(),
{
    if events.len() == 0 {
        step
    } else {
        match step {
            BatchStepView::Poll(state) => spec_run(
                spec_step(state, events[0]),
                events.drop_first(),
            ),
            BatchStepView::Done(_) => step,
        }
    }
}

/// The number of queries that a caller makes who starts at `step` and gets
/// the answers `events`.
pub open spec fn spec_queries(step: BatchStepView, events: Seq<BatchQueryOutcomeView>) -> nat
    decreases events.len(),
{
    if events.len() == 0 {
        0
    } else {
        match step {
            BatchStepView::Poll(state) => 1 + spec_queries(
                spec_step(state, events[0]),
                events.drop_first(),
            ),
            BatchStepView::Done(_) => 0,
        }
    }
}

/// The answer decides nothing about a batch of `batch_size` requests: the
/// query failed, or the summary shows a batch in progress.
pub open spec fn is_undecided(event: BatchQueryOutcomeView, batch_size: u64) -> bool {
    match event {
        BatchQueryOutcomeView::Failed => true,
        BatchQueryOutcomeView::Summary(summary) => spec_verdict(summary, batch_size) == Ok::<
            Verdict,
            SummaryViolation,
        >(Verdict::InProgress),
    }
}

/// A loop that owes the service a query for the summary of its batch.
///
/// A value of this type always has budget for the query it owes.
#[derive(Debug, PartialEq, Eq)]
pub struct BatchPoll {
    batch_id: BatchId,
    proof_ids: Vec<ProofId>,
    batch_size: u64,
    polls: u64,
    max_polls: u64,
}

/// Where a batch call stands: it owes a query, or it has ended.
#[derive(Debug, PartialEq, Eq)]
pub enum BatchStep {
    Poll(BatchPoll),
    Done(Result<ProverOutput, ProverError>),
}

impl View for BatchPoll {
    type V = BatchPollView;

    closed spec fn view(&self) -> BatchPollView {
        BatchPollView {
            batch_id: self.batch_id,
            proof_ids: self.proof_ids@,
            batch_size: self.batch_size,
            polls: self.polls as nat,
            max_polls: self.max_polls as nat,
        }
    }
}

impl View for BatchStep {
    type V = BatchStepView;

    open spec fn view(&self) -> BatchStepView {
        match *self {
            BatchStep::Poll(state) => BatchStepView::Poll(state@),
            BatchStep::Done(result) => BatchStepView::Done(result_view(result)),
        }
    }
}

impl BatchPoll {
    #[verifier::type_invariant]
    spec fn has_budget(self) -> bool {
        self.polls < self.max_polls
    }

    /// Starts the loop from the service's answer to the submission of
    /// `batch_size` requests, with a budget of `max_polls` queries.
    pub fn begin(outcome: BatchSubmitOutcome, batch_size: u64, max_polls: u64) -> (step: BatchStep)
        ensures
            step@ == spec_begin(outcome@, batch_size, max_polls as nat),
    {
        match outcome {
            BatchSubmitOutcome::Rejected => BatchStep::Done(Err(ProverError::Submission)),
            BatchSubmitOutcome::Accepted(batch_id, proof_ids) => {
                if max_polls == 0 {
                    BatchStep::Done(Err(ProverError::BatchTimeout { batch_id }))
                } else {
                    BatchStep::Poll(
                        BatchPoll { batch_id, proof_ids, batch_size, polls: 0, max_polls },
                    )
                }
            },
        }
    }

    fn keep_polling(self) -> (next: BatchStep)
        ensures
            self@.wf(),
            next@ == spec_keep_polling(self@),
    {
        proof {
            use_type_invariant(&self);
        }
        if self.polls + 1 < self.max_polls {
            BatchStep::Poll(
                BatchPoll {
                    batch_id: self.batch_id,
                    proof_ids: self.proof_ids,
                    batch_size: self.batch_size,
                    polls: self.polls + 1,
                    max_polls: self.max_polls,
                },
            )
        } else {
            BatchStep::Done(Err(ProverError::BatchTimeout { batch_id: self.batch_id }))
        }
    }

    /// Takes the answer to the query that this state owed, and decides how
    /// the call goes on.
    pub fn step(self, event: BatchQueryOutcome) -> (next: BatchStep)
        ensures
            self@.wf(),
            next@ == spec_step(self@, event@),
    {
        proof {
            use_type_invariant(&self);
        }
        match event {
            BatchQueryOutcome::Failed => self.keep_polling(),
            BatchQueryOutcome::Summary(summary) => match summary.verdict(self.batch_size) {
                Ok(Verdict::Failed { failed, succeeded }) => BatchStep::Done(
                    Err(ProverError::BatchFailed { batch_id: self.batch_id, failed, succeeded }),
                ),
                Ok(Verdict::AllSucceeded) => BatchStep::Done(
                    Ok(ProverOutput::Remote(self.proof_ids)),
                ),
                Ok(Verdict::InProgress) => self.keep_polling(),
                Err(violation) => BatchStep::Done(
                    Err(
                        ProverError::BatchInconsistent {
                            batch_id: self.batch_id,
                            succeeded: violation.succeeded,
                            expected: violation.expected,
                        },
                    ),
                ),
            },
        }
    }

    /// The batch whose summary is to be queried.
    pub fn batch_id(&self) -> (batch_id: BatchId)
        ensures
            batch_id == self@.batch_id,
    {
        self.batch_id
    }

    /// The identifiers that the service gave at submission, in its order.
    pub fn proof_ids(&self) -> (proof_ids: &[ProofId])
        ensures
            proof_ids@ == self@.proof_ids,
    {
        self.proof_ids.as_slice()
    }

    /// The number of requests that were submitted.
    pub fn batch_size(&self) -> (batch_size: u64)
        ensures
            batch_size == self@.batch_size,
    {
        self.batch_size
    }

    /// Seconds to wait before the query.
    pub fn delay_secs(&self) -> (secs: u64)
        ensures
            secs == POLL_INTERVAL_SECS,
    {
        POLL_INTERVAL_SECS
    }

    /// Queries answered so far.
    pub fn polls(&self) -> (polls: u64)
        ensures
            polls == self@.polls,
            self@.wf(),
    {
        proof {
            use_type_invariant(self);
        }
        self.polls
    }

    /// Queries the budget allows.
    pub fn max_polls(&self) -> (max_polls: u64)
        ensures
            max_polls == self@.max_polls,
            self@.wf(),
    {
        proof {
            use_type_invariant(self);
        }
        self.max_polls
    }
}

proof fn lemma_run_of_done(step: BatchStepView, events: Seq<BatchQueryOutcomeView>)
    requires
        step is Done,
    ensures
        spec_run(step, events) == step,
        spec_queries(step, events) == 0,
{
}

proof fn lemma_skip_undecided(state: BatchPollView, events: Seq<BatchQueryOutcomeView>, k: nat)
    requires
        state.wf(),
        k <= events.len(),
        state.polls + k < state.max_polls,
        forall|i: int| 0 <= i < k ==> is_undecided(#[trigger] events[i], state.batch_size),
    ensures
        spec_run(BatchStepView::Poll(state), events) == spec_run(
            BatchStepView::Poll(
                BatchPollView {
                    batch_id: state.batch_id,
                    proof_ids: state.proof_ids,
                    batch_size: state.batch_size,
                    polls: state.polls + k,
                    max_polls: state.max_polls,
                },
            ),
            events.skip(k as int),
        ),
        spec_queries(BatchStepView::Poll(state), events) == k + spec_queries(
            BatchStepView::Poll(
                BatchPollView {
                    batch_id: state.batch_id,
                    proof_ids: state.proof_ids,
                    batch_size: state.batch_size,
                    polls: state.polls + k,
                    max_polls: state.max_polls,
                },
            ),
            events.skip(k as int),
        ),
    decreases k,
{
    if k == 0 {
        assert(events.skip(0) =~= events);
    } else {
        let next = BatchPollView {
            batch_id: state.batch_id,
            proof_ids: state.proof_ids,
            batch_size: state.batch_size,
            polls: state.polls + 1,
            max_polls: state.max_polls,
        };
        let rest = events.drop_first();
        lemma_skip_undecided(next, rest, (k - 1) as nat);
        assert(rest.skip(k - 1) =~= events.skip(k as int));
    }
}

proof fn lemma_queries_within_remaining_budget(
    state: BatchPollView,
    events: Seq<BatchQueryOutcomeView>,
)
    requires
        state.wf(),
    ensures
        spec_queries(BatchStepView::Poll(state), events) <= state.max_polls - state.polls,
    decreases events.len(),
{
    if events.len() > 0 {
        match spec_step(state, events[0]) {
            BatchStepView::Poll(next) => {
                lemma_queries_within_remaining_budget(next, events.drop_first());
            },
            BatchStepView::Done(result) => {
                lemma_run_of_done(BatchStepView::Done(result), events.drop_first());
            },
        }
    }
}

proof fn lemma_success_holds_submitted_ids(
    state: BatchPollView,
    events: Seq<BatchQueryOutcomeView>,
)
    requires
        state.wf(),
    ensures
        spec_run(BatchStepView::Poll(state), events) matches BatchStepView::Done(Ok(output))
            ==> output == ProverOutputView::Remote(state.proof_ids),
    decreases events.len(),
{
    if events.len() > 0 {
        match spec_step(state, events[0]) {
            BatchStepView::Poll(next) => {
                lemma_success_holds_submitted_ids(next, events.drop_first());
            },
            BatchStepView::Done(result) => {
                lemma_run_of_done(BatchStepView::Done(result), events.drop_first());
            },
        }
    }
}

/// No run makes more queries than its budget allows, whatever the service
/// answers and however many answers are at hand.
pub proof fn lemma_queries_within_budget(
    outcome: BatchSubmitOutcomeView,
    batch_size: u64,
    timeout_secs: u64,
    events: Seq<BatchQueryOutcomeView>,
)
    ensures
        spec_queries(
            spec_begin(outcome, batch_size, spec_max_polls(timeout_secs) as nat),
            events,
        ) <= timeout_secs / POLL_INTERVAL_SECS,
{
    let start = spec_begin(outcome, batch_size, spec_max_polls(timeout_secs) as nat);
    if let BatchStepView::Poll(state) = start {
        lemma_queries_within_remaining_budget(state, events);
    }
}

/// A batch call that succeeds hands back the proof identifiers that the
/// service gave when it accepted the batch: the same ones, as many, and in
/// the same order, whatever happened in between.
pub proof fn lemma_success_keeps_submission_order(
    batch_id: BatchId,
    proof_ids: Seq<ProofId>,
    batch_size: u64,
    max_polls: nat,
    events: Seq<BatchQueryOutcomeView>,
)
    ensures
        spec_run(
            spec_begin(BatchSubmitOutcomeView::Accepted(batch_id, proof_ids), batch_size, max_polls),
            events,
        ) matches BatchStepView::Done(Ok(output)) ==> output == ProverOutputView::Remote(
            proof_ids,
        ),
{
    let start = spec_begin(
        BatchSubmitOutcomeView::Accepted(batch_id, proof_ids),
        batch_size,
        max_polls,
    );
    match start {
        BatchStepView::Poll(state) => {
            lemma_success_holds_submitted_ids(state, events);
        },
        BatchStepView::Done(_) => {
            lemma_run_of_done(start, events);
        },
    }
}

/// Failed queries and summaries of a batch in progress do not end the call
/// while budget is left, and leave no trace but the queries they cost: the
/// first summary that decides is judged as if it had come first.
pub proof fn lemma_decision_after_undecided(
    batch_id: BatchId,
    proof_ids: Seq<ProofId>,
    batch_size: u64,
    max_polls: nat,
    events: Seq<BatchQueryOutcomeView>,
    k: nat,
)
    requires
        k < events.len(),
        k < max_polls,
        forall|i: int| 0 <= i < k ==> is_undecided(#[trigger] events[i], batch_size),
        !is_undecided(events[k as int], batch_size),
    ensures
        ({
            let start = spec_begin(
                BatchSubmitOutcomeView::Accepted(batch_id, proof_ids),
                batch_size,
                max_polls,
            );
            &&& spec_run(start, events) == spec_run(start, seq![events[k as int]])
            &&& spec_run(start, events) is Done
            &&& spec_queries(start, events) == k + 1
        }),
{
    let start = spec_begin(
        BatchSubmitOutcomeView::Accepted(batch_id, proof_ids),
        batch_size,
        max_polls,
    );
    let first = start->Poll_0;
    let decisive = events[k as int];
    lemma_skip_undecided(first, events, k);
    let rest = events.skip(k as int);
    let at = BatchPollView { batch_id, proof_ids, batch_size, polls: k, max_polls };
    lemma_run_of_done(spec_step(at, decisive), rest.drop_first());
    let alone = seq![decisive];
    lemma_run_of_done(spec_step(first, decisive), alone.drop_first());
}

/// A batch succeeds on the first summary that names `Success` alone with the
/// whole batch under it. Queries that failed before it, and summaries of a
/// batch in progress, change neither the result nor the order of the proof
/// identifiers, as long as they leave budget for that summary.
pub proof fn lemma_success_after_undecided(
    batch_id: BatchId,
    proof_ids: Seq<ProofId>,
    batch_size: u64,
    max_polls: nat,
    events: Seq<BatchQueryOutcomeView>,
    k: nat,
)
    requires
        k < events.len(),
        k < max_polls,
        forall|i: int| 0 <= i < k ==> is_undecided(#[trigger] events[i], batch_size),
        events[k as int] matches BatchQueryOutcomeView::Summary(summary) && spec_verdict(
            summary,
            batch_size,
        ) == Ok::<Verdict, SummaryViolation>(Verdict::AllSucceeded),
    ensures
        ({
            let start = spec_begin(
                BatchSubmitOutcomeView::Accepted(batch_id, proof_ids),
                batch_size,
                max_polls,
            );
            &&& spec_run(start, events) == BatchStepView::Done(
                Ok(ProverOutputView::Remote(proof_ids)),
            )
            &&& spec_queries(start, events) == k + 1
        }),
{
    let start = spec_begin(
        BatchSubmitOutcomeView::Accepted(batch_id, proof_ids),
        batch_size,
        max_polls,
    );
    lemma_decision_after_undecided(batch_id, proof_ids, batch_size, max_polls, events, k);
    let alone = seq![events[k as int]];
    lemma_run_of_done(spec_step(start->Poll_0, alone[0]), alone.drop_first());
}

/// A batch fails on the first summary that counts a failed member, with the
/// counts of that summary, whatever it says of members that are pending or
/// running, and however much budget is left.
pub proof fn lemma_failure_after_undecided(
    batch_id: BatchId,
    proof_ids: Seq<ProofId>,
    batch_size: u64,
    max_polls: nat,
    events: Seq<BatchQueryOutcomeView>,
    k: nat,
)
    requires
        k < events.len(),
        k < max_polls,
        forall|i: int| 0 <= i < k ==> is_undecided(#[trigger] events[i], batch_size),
        events[k as int] matches BatchQueryOutcomeView::Summary(summary) && count_of(
            summary,
            ProofRequestStatus::Failure,
        ) > 0,
    ensures
        ({
            let start = spec_begin(
                BatchSubmitOutcomeView::Accepted(batch_id, proof_ids),
                batch_size,
                max_polls,
            );
            let summary = events[k as int]->Summary_0;
            &&& spec_run(start, events) == BatchStepView::Done(
                Err(
                    ProverError::BatchFailed {
                        batch_id,
                        failed: count_of(summary, ProofRequestStatus::Failure),
                        succeeded: count_of(summary, ProofRequestStatus::Success),
                    },
                ),
            )
            &&& spec_queries(start, events) == k + 1
        }),
{
    let start = spec_begin(
        BatchSubmitOutcomeView::Accepted(batch_id, proof_ids),
        batch_size,
        max_polls,
    );
    lemma_decision_after_undecided(batch_id, proof_ids, batch_size, max_polls, events, k);
    let alone = seq![events[k as int]];
    lemma_run_of_done(spec_step(start->Poll_0, alone[0]), alone.drop_first());
}

/// A query that fails while budget is left costs one query and changes
/// nothing else: the loop owes the next query, for the same batch.
pub proof fn lemma_failed_query_is_a_lost_poll(state: BatchPollView)
    requires
        state.polls + 1 < state.max_polls,
    ensures
        spec_step(state, BatchQueryOutcomeView::Failed) == BatchStepView::Poll(
            BatchPollView {
                batch_id: state.batch_id,
                proof_ids: state.proof_ids,
                batch_size: state.batch_size,
                polls: state.polls + 1,
                max_polls: state.max_polls,
            },
        ),
{
}

/// A batch of which nothing is ever decided is asked about exactly as often
/// as the budget allows, which is the timeout divided by the poll interval,
/// rounded down. The call then ends as timed out.
pub proof fn lemma_never_decided_times_out(
    batch_id: BatchId,
    proof_ids: Seq<ProofId>,
    batch_size: u64,
    timeout_secs: u64,
    events: Seq<BatchQueryOutcomeView>,
)
    requires
        events.len() >= timeout_secs / POLL_INTERVAL_SECS,
        forall|i: int| 0 <= i < events.len() ==> is_undecided(#[trigger] events[i], batch_size),
    ensures
        ({
            let polls = spec_max_polls(timeout_secs) as nat;
            let start = spec_begin(
                BatchSubmitOutcomeView::Accepted(batch_id, proof_ids),
                batch_size,
                polls,
            );
            &&& spec_run(start, events) == BatchStepView::Done(
                Err(ProverError::BatchTimeout { batch_id }),
            )
            &&& spec_queries(start, events) == polls
        }),
{
    let polls = spec_max_polls(timeout_secs) as nat;
    let start = spec_begin(
        BatchSubmitOutcomeView::Accepted(batch_id, proof_ids),
        batch_size,
        polls,
    );
    if polls > 0 {
        let k = (polls - 1) as nat;
        lemma_skip_undecided(start->Poll_0, events, k);
        let rest = events.skip(k as int);
        let last = BatchPollView { batch_id, proof_ids, batch_size, polls: k, max_polls: polls };
        lemma_run_of_done(spec_step(last, rest[0]), rest.drop_first());
    }
}

} // verus!
