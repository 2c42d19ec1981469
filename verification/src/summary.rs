//! Status summaries of a batch, and the verdict drawn from one.

use vstd::prelude::*;
use crate::status::ProofRequestStatus;

verus! {

/// What a summary says of its batch as a whole.
#[derive(Clone, Copy, Debug, PartialEq, Eq, Structural)]
pub enum Verdict {
    /// At least one member failed.
    Failed { failed: u64, succeeded: u64 },
    /// Every member succeeded.
    AllSucceeded,
    /// No member failed, and not all of them are done.
    InProgress,
}

/// A summary that names `Success` alone, with a count other than the size of
/// the batch. The service never reports this of a batch it keeps in order.
#[derive(Clone, Copy, Debug, PartialEq, Eq, Structural)]
pub struct SummaryViolation {
    pub succeeded: u64,
    pub expected: u64,
}

/// The count a summary gives for `status`: zero where it does not name it.
pub open spec fn count_of(m: Map<ProofRequestStatus, u64>, status: ProofRequestStatus) -> u64 {
    if m.contains_key(status) {
        m[status]
    } else {
        0
    }
}

/// The number of members a summary accounts for.
pub open spec fn total(m: Map<ProofRequestStatus, u64>) -> nat {
    (count_of(m, ProofRequestStatus::Pending) + count_of(m, ProofRequestStatus::Running)
        + count_of(m, ProofRequestStatus::Success) + count_of(m, ProofRequestStatus::Failure)
        + count_of(m, ProofRequestStatus::Cancelled)) as nat
}

/// The summary names `status` and no other status.
pub open spec fn names_only(m: Map<ProofRequestStatus, u64>, status: ProofRequestStatus) -> bool {
    m.contains_key(status) && forall|other: ProofRequestStatus|
        m.contains_key(other) ==> other == status
}

/// The verdict on a batch of `batch_size` members whose summary is `m`.
///
/// A failure count above zero decides at once, whatever else the summary
/// holds. Otherwise the batch has succeeded when the summary names `Success`
/// alone, with the whole batch under it. In every other case the batch is
/// still in progress.
pub open spec fn spec_verdict(m: Map<ProofRequestStatus, u64>, batch_size: u64) -> Result<
    Verdict,
    SummaryViolation,
> {
    if count_of(m, ProofRequestStatus::Failure) > 0 {
        Ok(
            Verdict::Failed {
                failed: count_of(m, ProofRequestStatus::Failure),
                succeeded: count_of(m, ProofRequestStatus::Success),
            },
        )
    } else if names_only(m, ProofRequestStatus::Success) {
        if count_of(m, ProofRequestStatus::Success) == batch_size {
            Ok(Verdict::AllSucceeded)
        } else {
            Err(
                SummaryViolation {
                    succeeded: count_of(m, ProofRequestStatus::Success),
                    expected: batch_size,
                },
            )
        }
    } else {
        Ok(Verdict::InProgress)
    }
}

/// A summary that accounts for every member of its batch, no more and no
/// fewer, always has a verdict. A violation can only come from a summary
/// whose counts do not add up to the size of the batch.
pub proof fn lemma_complete_summary_has_verdict(m: Map<ProofRequestStatus, u64>, batch_size: u64)
    requires
        total(m) == batch_size,
    ensures
        spec_verdict(m, batch_size) is Ok,
{
}

/// One failed member decides the batch, whatever the summary says of the
/// others: two summaries that agree on `Failure` and on `Success` have the
/// same verdict as soon as the failure count is above zero.
pub proof fn lemma_failure_dominates(
    m1: Map<ProofRequestStatus, u64>,
    m2: Map<ProofRequestStatus, u64>,
    size1: u64,
    size2: u64,
)
    requires
        count_of(m1, ProofRequestStatus::Failure) > 0,
        count_of(m2, ProofRequestStatus::Failure) == count_of(m1, ProofRequestStatus::Failure),
        count_of(m2, ProofRequestStatus::Success) == count_of(m1, ProofRequestStatus::Success),
    ensures
        spec_verdict(m1, size1) == spec_verdict(m2, size2),
        spec_verdict(m1, size1) == Ok::<Verdict, SummaryViolation>(
            Verdict::Failed {
                failed: count_of(m1, ProofRequestStatus::Failure),
                succeeded: count_of(m1, ProofRequestStatus::Success),
            },
        ),
{
}

/// For each status, how many members of a batch are in it right now. A status
/// that the service did not name has no entry, which is not the same as an
/// entry of zero.
#[derive(Clone, Copy, Debug, PartialEq, Eq)]
pub struct BatchStatusSummary {
    pending: Option<u64>,
    running: Option<u64>,
    success: Option<u64>,
    failure: Option<u64>,
    cancelled: Option<u64>,
}

impl BatchStatusSummary {
    spec fn entry(self, status: ProofRequestStatus) -> Option<u64> {
        match status {
            ProofRequestStatus::Pending => self.pending,
            ProofRequestStatus::Running => self.running,
            ProofRequestStatus::Success => self.success,
            ProofRequestStatus::Failure => self.failure,
            ProofRequestStatus::Cancelled => self.cancelled,
        }
    }
}

impl View for BatchStatusSummary {
    type V = Map<ProofRequestStatus, u64>;

    closed spec fn view(&self) -> Map<ProofRequestStatus, u64> {
        Map::new(
            |status: ProofRequestStatus| self.entry(status) is Some,
            |status: ProofRequestStatus| self.entry(status)->0,
        )
    }
}

impl BatchStatusSummary {
    /// The summary that names no status.
    pub fn new() -> (summary: BatchStatusSummary)
        ensures
            summary@ == Map::<ProofRequestStatus, u64>::empty(),
    {
        BatchStatusSummary {
            pending: None,
            running: None,
            success: None,
            failure: None,
            cancelled: None,
        }
    }

    /// Sets the count of `status`, and returns the count it had before.
    pub fn insert(&mut self, status: ProofRequestStatus, count: u64) -> (previous: Option<u64>)
        ensures
            final(self)@ == old(self)@.insert(status, count),
            previous == (if old(self)@.contains_key(status) {
                Some(old(self)@[status])
            } else {
                None
            }),
    {
        let previous = self.get(status);
        match status {
            ProofRequestStatus::Pending => {
                self.pending = Some(count);
            },
            ProofRequestStatus::Running => {
                self.running = Some(count);
            },
            ProofRequestStatus::Success => {
                self.success = Some(count);
            },
            ProofRequestStatus::Failure => {
                self.failure = Some(count);
            },
            ProofRequestStatus::Cancelled => {
                self.cancelled = Some(count);
            },
        }
        previous
    }

    /// The count of `status`, if the summary names it.
    pub fn get(&self, status: ProofRequestStatus) -> (count: Option<u64>)
        ensures
            count == (if self@.contains_key(status) {
                Some(self@[status])
            } else {
                None
            }),
    {
        match status {
            ProofRequestStatus::Pending => self.pending,
            ProofRequestStatus::Running => self.running,
            ProofRequestStatus::Success => self.success,
            ProofRequestStatus::Failure => self.failure,
            ProofRequestStatus::Cancelled => self.cancelled,
        }
    }

    /// Whether the summary names `status`.
    pub fn contains_key(&self, status: ProofRequestStatus) -> (present: bool)
        ensures
            present == self@.contains_key(status),
    {
        self.get(status).is_some()
    }

    /// The number of statuses that the summary names.
    pub fn len(&self) -> (n: usize)
        ensures
            self@.dom().finite(),
            n == self@.dom().len(),
    {
        let mut n: usize = 0;
        let ghost mut seen: Set<ProofRequestStatus> = Set::empty();
        if self.pending.is_some() {
            n = n + 1;
            proof {
                seen = seen.insert(ProofRequestStatus::Pending);
            }
        }
        if self.running.is_some() {
            n = n + 1;
            proof {
                seen = seen.insert(ProofRequestStatus::Running);
            }
        }
        if self.success.is_some() {
            n = n + 1;
            proof {
                seen = seen.insert(ProofRequestStatus::Success);
            }
        }
        if self.failure.is_some() {
            n = n + 1;
            proof {
                seen = seen.insert(ProofRequestStatus::Failure);
            }
        }
        if self.cancelled.is_some() {
            n = n + 1;
            proof {
                seen = seen.insert(ProofRequestStatus::Cancelled);
            }
        }
        assert(seen =~= self@.dom());
        n
    }

    /// The verdict on the batch of `batch_size` members that this summary is of.
    pub fn verdict(&self, batch_size: u64) -> (verdict: Result<Verdict, SummaryViolation>)
        ensures
            verdict == spec_verdict(self@, batch_size),
    {
        let failed: u64 = match self.failure {
            Some(count) => count,
            None => 0,
        };
        if failed > 0 {
            let succeeded: u64 = match self.success {
                Some(count) => count,
                None => 0,
            };
            return Ok(Verdict::Failed { failed, succeeded });
        }
        if self.len() == 1 {
            if let Some(succeeded) = self.success {
                assert(names_only(self@, ProofRequestStatus::Success)) by {
                    assert forall|other: ProofRequestStatus| self@.contains_key(other) implies other
                        == ProofRequestStatus::Success by {
                        if other != ProofRequestStatus::Success {
                            let two = set![ProofRequestStatus::Success, other];
                            vstd::set_lib::lemma_len_subset(two, self@.dom());
                        }
                    }
                }
                return if succeeded == batch_size {
                    Ok(Verdict::AllSucceeded)
                } else {
                    Err(SummaryViolation { succeeded, expected: batch_size })
                };
            }
        }
        assert(!names_only(self@, ProofRequestStatus::Success)) by {
            if names_only(self@, ProofRequestStatus::Success) {
                assert(self@.dom() =~= set![ProofRequestStatus::Success]);
            }
        }
        Ok(Verdict::InProgress)
    }
}

} // verus!
