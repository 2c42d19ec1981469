use remote_prover::outcome::{ProverError, ProverOutput};
use remote_prover::record::ProofRecord;
use remote_prover::single::{
    max_polls, QueryOutcome, SinglePoll, SingleStep, SubmitOutcome, POLL_INTERVAL_SECS,
};
use remote_prover::status::{ProofId, ProofRequestStatus};

/// Plays a scripted service against the loop: each query takes the next
/// answer. Gives the result of the call and the number of queries made.
fn run_single(
    submitted: SubmitOutcome,
    timeout_secs: u64,
    answers: Vec<QueryOutcome>,
) -> (Option<Result<ProverOutput, ProverError>>, usize) {
    let mut answers = answers.into_iter();
    let mut queries = 0;
    let mut step = SinglePoll::begin(submitted, max_polls(timeout_secs));
    loop {
        match step {
            SingleStep::Done(result) => return (Some(result), queries),
            SingleStep::Poll(state) => match answers.next() {
                Some(answer) => {
                    assert_eq!(state.delay_secs(), 10);
                    queries += 1;
                    step = state.step(answer);
                }
                None => return (None, queries),
            },
        }
    }
}

fn record_in(status: ProofRequestStatus) -> QueryOutcome {
    QueryOutcome::Record(ProofRecord::new(status, None).unwrap())
}

fn pending(n: usize) -> Vec<QueryOutcome> {
    (0..n).map(|_| record_in(ProofRequestStatus::Pending)).collect()
}

#[test]
fn success_on_first_poll_returns_the_recorded_result() {
    let proof = vec![0xde, 0xad, 0xbe, 0xef];
    let output = vec![1, 2, 3];
    let answers = vec![
        QueryOutcome::Record(ProofRecord::success(proof.clone(), output.clone())),
        record_in(ProofRequestStatus::Failure),
    ];
    let (result, queries) = run_single(SubmitOutcome::Accepted(ProofId(11)), 3600, answers);
    assert_eq!(result, Some(Ok(ProverOutput::Local(proof, output))));
    assert_eq!(queries, 1);
}

#[test]
fn success_after_pending_and_running() {
    let answers = vec![
        record_in(ProofRequestStatus::Pending),
        record_in(ProofRequestStatus::Running),
        record_in(ProofRequestStatus::Running),
        QueryOutcome::Record(ProofRecord::success(vec![7], vec![])),
    ];
    let (result, queries) = run_single(SubmitOutcome::Accepted(ProofId(1)), 3600, answers);
    assert_eq!(result, Some(Ok(ProverOutput::Local(vec![7], vec![]))));
    assert_eq!(queries, 4);
}

#[test]
fn max_polls_is_the_timeout_divided_by_the_interval() {
    assert_eq!(POLL_INTERVAL_SECS, 10);
    assert_eq!(max_polls(3600), 360);
    assert_eq!(max_polls(100), 10);
    assert_eq!(max_polls(99), 9);
    assert_eq!(max_polls(10), 1);
    assert_eq!(max_polls(9), 0);
    assert_eq!(max_polls(0), 0);
    assert_eq!(max_polls(u64::MAX), 1844674407370955161);
}

#[test]
fn always_pending_polls_exactly_the_budget_then_times_out() {
    for timeout in [10u64, 25, 100, 3600] {
        let budget = (timeout / 10) as usize;
        let (result, queries) =
            run_single(SubmitOutcome::Accepted(ProofId(5)), timeout, pending(budget + 7));
        assert_eq!(
            result,
            Some(Err(ProverError::ProofTimeout {
                proof_id: ProofId(5),
                status: ProofRequestStatus::Pending
            }))
        );
        assert_eq!(queries, budget);
    }
}

#[test]
fn one_answer_short_of_the_budget_is_not_yet_a_timeout() {
    let (result, queries) = run_single(SubmitOutcome::Accepted(ProofId(5)), 100, pending(9));
    assert_eq!(result, None);
    assert_eq!(queries, 9);
}

#[test]
fn timeout_carries_the_last_status_seen() {
    let answers = vec![
        record_in(ProofRequestStatus::Pending),
        record_in(ProofRequestStatus::Running),
        record_in(ProofRequestStatus::Running),
    ];
    let (result, queries) = run_single(SubmitOutcome::Accepted(ProofId(2)), 30, answers);
    assert_eq!(
        result,
        Some(Err(ProverError::ProofTimeout {
            proof_id: ProofId(2),
            status: ProofRequestStatus::Running
        }))
    );
    assert_eq!(queries, 3);
}

#[test]
fn timeout_shorter_than_the_interval_asks_nothing() {
    let (result, queries) = run_single(SubmitOutcome::Accepted(ProofId(3)), 9, pending(4));
    assert_eq!(
        result,
        Some(Err(ProverError::ProofTimeout {
            proof_id: ProofId(3),
            status: ProofRequestStatus::Pending
        }))
    );
    assert_eq!(queries, 0);
}

#[test]
fn failure_on_second_poll_ends_the_loop_early() {
    let mut answers = vec![record_in(ProofRequestStatus::Pending), record_in(ProofRequestStatus::Failure)];
    answers.extend(pending(20));
    let (result, queries) = run_single(SubmitOutcome::Accepted(ProofId(8)), 100, answers);
    assert_eq!(
        result,
        Some(Err(ProverError::ProofFailed {
            proof_id: ProofId(8),
            status: ProofRequestStatus::Failure
        }))
    );
    assert_eq!(queries, 2);
    assert!((queries as u64) < max_polls(100));
}

#[test]
fn cancelled_is_a_final_failure() {
    let answers = vec![record_in(ProofRequestStatus::Cancelled), record_in(ProofRequestStatus::Pending)];
    let (result, queries) = run_single(SubmitOutcome::Accepted(ProofId(8)), 100, answers);
    assert_eq!(
        result,
        Some(Err(ProverError::ProofFailed {
            proof_id: ProofId(8),
            status: ProofRequestStatus::Cancelled
        }))
    );
    assert_eq!(queries, 1);
}

#[test]
fn failure_on_the_last_poll_is_a_failure_not_a_timeout() {
    let answers = vec![record_in(ProofRequestStatus::Running), record_in(ProofRequestStatus::Failure)];
    let (result, queries) = run_single(SubmitOutcome::Accepted(ProofId(8)), 20, answers);
    assert_eq!(
        result,
        Some(Err(ProverError::ProofFailed {
            proof_id: ProofId(8),
            status: ProofRequestStatus::Failure
        }))
    );
    assert_eq!(queries, 2);
}

#[test]
fn success_on_the_last_poll_is_a_success() {
    let answers = vec![
        record_in(ProofRequestStatus::Running),
        QueryOutcome::Record(ProofRecord::success(vec![1], vec![2])),
    ];
    let (result, queries) = run_single(SubmitOutcome::Accepted(ProofId(8)), 20, answers);
    assert_eq!(result, Some(Ok(ProverOutput::Local(vec![1], vec![2]))));
    assert_eq!(queries, 2);
}

#[test]
fn failed_query_ends_the_single_call_at_once() {
    let answers = vec![
        record_in(ProofRequestStatus::Pending),
        QueryOutcome::Failed,
        QueryOutcome::Record(ProofRecord::success(vec![1], vec![2])),
    ];
    let (result, queries) = run_single(SubmitOutcome::Accepted(ProofId(4)), 3600, answers);
    assert_eq!(result, Some(Err(ProverError::Query { proof_id: ProofId(4) })));
    assert_eq!(queries, 2);
}

#[test]
fn rejected_submission_ends_the_call_without_a_query() {
    let (result, queries) = run_single(SubmitOutcome::Rejected, 3600, pending(3));
    assert_eq!(result, Some(Err(ProverError::Submission)));
    assert_eq!(queries, 0);
}

#[test]
fn poll_state_counts_answers_and_keeps_the_identifier() {
    let step = SinglePoll::begin(SubmitOutcome::Accepted(ProofId(77)), 3);
    let state = match step {
        SingleStep::Poll(state) => state,
        SingleStep::Done(_) => panic!("a budget of three allows a query"),
    };
    assert_eq!(state.proof_id(), ProofId(77));
    assert_eq!(state.polls(), 0);
    assert_eq!(state.max_polls(), 3);
    assert_eq!(state.last_status(), ProofRequestStatus::Pending);
    let state = match state.step(record_in(ProofRequestStatus::Running)) {
        SingleStep::Poll(state) => state,
        SingleStep::Done(_) => panic!("two queries are left"),
    };
    assert_eq!(state.proof_id(), ProofId(77));
    assert_eq!(state.polls(), 1);
    assert_eq!(state.max_polls(), 3);
    assert_eq!(state.last_status(), ProofRequestStatus::Running);
}

#[test]
fn record_holds_a_result_exactly_when_it_succeeded() {
    let found = Some((vec![1u8, 2], vec![3u8]));
    let record = ProofRecord::new(ProofRequestStatus::Success, found.clone()).unwrap();
    assert_eq!(record.status(), ProofRequestStatus::Success);
    assert_eq!(record.into_parts(), (ProofRequestStatus::Success, found.clone()));

    assert_eq!(ProofRecord::new(ProofRequestStatus::Success, None), None);

    for status in [
        ProofRequestStatus::Pending,
        ProofRequestStatus::Running,
        ProofRequestStatus::Failure,
        ProofRequestStatus::Cancelled,
    ] {
        let bare = ProofRecord::new(status, None).unwrap();
        assert_eq!(bare.status(), status);
        assert_eq!(bare.into_parts(), (status, None));
        let dropped = ProofRecord::new(status, found.clone()).unwrap();
        assert_eq!(dropped.into_parts(), (status, None));
    }
}

#[test]
fn status_classes() {
    assert!(ProofRequestStatus::Pending.is_in_progress());
    assert!(ProofRequestStatus::Running.is_in_progress());
    assert!(!ProofRequestStatus::Success.is_in_progress());
    assert!(!ProofRequestStatus::Failure.is_in_progress());
    assert!(!ProofRequestStatus::Cancelled.is_in_progress());
    assert!(!ProofRequestStatus::Pending.is_terminal_failure());
    assert!(!ProofRequestStatus::Running.is_terminal_failure());
    assert!(!ProofRequestStatus::Success.is_terminal_failure());
    assert!(ProofRequestStatus::Failure.is_terminal_failure());
    assert!(ProofRequestStatus::Cancelled.is_terminal_failure());
}
