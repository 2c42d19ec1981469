use remote_prover::status::ProofRequestStatus;
use remote_prover::summary::{BatchStatusSummary, SummaryViolation, Verdict};

fn summary_of(entries: &[(ProofRequestStatus, u64)]) -> BatchStatusSummary {
    let mut summary = BatchStatusSummary::new();
    for (status, count) in entries {
        summary.insert(*status, *count);
    }
    summary
}

#[test]
fn failure_dominates_the_verdict() {
    let summary =
        summary_of(&[(ProofRequestStatus::Success, 3), (ProofRequestStatus::Failure, 1)]);
    assert_eq!(summary.verdict(4), Ok(Verdict::Failed { failed: 1, succeeded: 3 }));
    assert_eq!(summary.verdict(400), Ok(Verdict::Failed { failed: 1, succeeded: 3 }));
}

#[test]
fn failure_without_a_success_entry_counts_no_success() {
    let summary =
        summary_of(&[(ProofRequestStatus::Failure, 2), (ProofRequestStatus::Pending, 2)]);
    assert_eq!(summary.verdict(4), Ok(Verdict::Failed { failed: 2, succeeded: 0 }));
}

#[test]
fn lone_success_with_the_whole_batch_is_all_succeeded() {
    assert_eq!(summary_of(&[(ProofRequestStatus::Success, 4)]).verdict(4), Ok(Verdict::AllSucceeded));
    assert_eq!(summary_of(&[(ProofRequestStatus::Success, 0)]).verdict(0), Ok(Verdict::AllSucceeded));
}

#[test]
fn lone_success_with_another_count_is_a_violation() {
    assert_eq!(
        summary_of(&[(ProofRequestStatus::Success, 3)]).verdict(4),
        Err(SummaryViolation { succeeded: 3, expected: 4 })
    );
    assert_eq!(
        summary_of(&[(ProofRequestStatus::Success, 5)]).verdict(4),
        Err(SummaryViolation { succeeded: 5, expected: 4 })
    );
}

#[test]
fn anything_else_is_in_progress() {
    let cases: Vec<Vec<(ProofRequestStatus, u64)>> = vec![
        vec![],
        vec![(ProofRequestStatus::Pending, 4)],
        vec![(ProofRequestStatus::Running, 4)],
        vec![(ProofRequestStatus::Cancelled, 4)],
        vec![(ProofRequestStatus::Failure, 0)],
        vec![(ProofRequestStatus::Success, 4), (ProofRequestStatus::Failure, 0)],
        vec![(ProofRequestStatus::Success, 4), (ProofRequestStatus::Pending, 0)],
        vec![(ProofRequestStatus::Success, 2), (ProofRequestStatus::Running, 2)],
        vec![(ProofRequestStatus::Success, 3), (ProofRequestStatus::Cancelled, 1)],
    ];
    for entries in cases {
        assert_eq!(summary_of(&entries).verdict(4), Ok(Verdict::InProgress), "{:?}", entries);
    }
}

#[test]
fn verdict_is_the_same_on_every_evaluation() {
    let summary =
        summary_of(&[(ProofRequestStatus::Success, 1), (ProofRequestStatus::Running, 3)]);
    assert_eq!(summary.verdict(4), summary.verdict(4));
    assert_eq!(summary, summary_of(&[(ProofRequestStatus::Running, 3), (ProofRequestStatus::Success, 1)]));
}

#[test]
fn summary_is_a_map_from_status_to_count() {
    let mut summary = BatchStatusSummary::new();
    assert_eq!(summary.len(), 0);
    assert_eq!(summary.get(ProofRequestStatus::Success), None);
    assert!(!summary.contains_key(ProofRequestStatus::Success));

    assert_eq!(summary.insert(ProofRequestStatus::Success, 2), None);
    assert_eq!(summary.insert(ProofRequestStatus::Pending, 0), None);
    assert_eq!(summary.len(), 2);
    assert_eq!(summary.get(ProofRequestStatus::Success), Some(2));
    assert_eq!(summary.get(ProofRequestStatus::Pending), Some(0));
    assert_eq!(summary.get(ProofRequestStatus::Failure), None);
    assert!(summary.contains_key(ProofRequestStatus::Pending));
    assert!(!summary.contains_key(ProofRequestStatus::Running));

    assert_eq!(summary.insert(ProofRequestStatus::Success, 5), Some(2));
    assert_eq!(summary.len(), 2);
    assert_eq!(summary.get(ProofRequestStatus::Success), Some(5));

    for (n, status) in [
        ProofRequestStatus::Running,
        ProofRequestStatus::Failure,
        ProofRequestStatus::Cancelled,
    ]
    .into_iter()
    .enumerate()
    {
        summary.insert(status, 1);
        assert_eq!(summary.len(), 3 + n);
    }
}
