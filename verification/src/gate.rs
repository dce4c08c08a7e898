//! The submission gate: the recheck of a winning digest against the live
//! target, and the bookkeeping once the node has answered.

use crate::target::{Digest, Target};
use vstd::prelude::*;

verus! {

/// The verdict of the recheck on a winning digest.
#[derive(Clone, Copy, Debug, PartialEq, Eq, Structural)]
pub enum GateDecision {
    /// The digest still meets the live target: hand the candidate to the node.
    Submit,
    /// The work went stale: drop the candidate without a word.
    Discard,
}

/// The verdict of the recheck for a digest of value `digest` under the live
/// target `live`.
pub open spec fn gate_decision(digest: nat, live: nat) -> GateDecision {
    if digest <= live {
        GateDecision::Submit
    } else {
        GateDecision::Discard
    }
}

/// Rechecks a winning digest against the target as it stands now. The
/// digest is submitted exactly when it does not exceed that target; the
/// target of the batch plays no part.
pub fn recheck(digest: &Digest, live_target: &Target) -> (decision: GateDecision)
    ensures
        decision == gate_decision(digest.value(), live_target@),
        decision is Submit <==> digest.value() <= live_target@,
{
    if digest.meets(live_target) {
        GateDecision::Submit
    } else {
        GateDecision::Discard
    }
}

/// How a submission ended.
#[derive(Clone, Copy, Debug, PartialEq, Eq, Structural)]
pub enum SubmitOutcome {
    /// The call itself failed; the node may never have seen the candidate.
    TransportFailed,
    /// The node answered and turned the candidate down.
    Rejected,
    /// The node answered and took the candidate.
    Accepted,
}

/// What the worker reports after a submission.
#[derive(Clone, Copy, Debug, PartialEq, Eq, Structural)]
pub enum SubmissionReport {
    /// Report the failure; the candidate is dropped and not sent again.
    TransportFailure,
    /// An expected miss: nothing to report.
    Missed,
    /// Report the acceptance with the seconds since the previous one.
    Accepted { elapsed: i128 },
}

/// When the node last accepted a block of this miner, in seconds.
#[derive(Clone, Copy, Debug)]
pub struct LastAccepted {
    timestamp: i64,
}

impl View for LastAccepted {
    type V = i64;

    closed spec fn view(&self) -> i64 {
        self.timestamp
    }
}

/// The report for an outcome at time `now` when the last acceptance was at
/// `last`.
pub open spec fn report_for(outcome: SubmitOutcome, now: i64, last: i64) -> SubmissionReport {
    match outcome {
        SubmitOutcome::TransportFailed => SubmissionReport::TransportFailure,
        SubmitOutcome::Rejected => SubmissionReport::Missed,
        SubmitOutcome::Accepted => SubmissionReport::Accepted { elapsed: (now - last) as i128 },
    }
}

/// The time of the last acceptance after an outcome at time `now`: only an
/// acceptance moves it.
pub open spec fn last_after(outcome: SubmitOutcome, now: i64, last: i64) -> i64 {
    match outcome {
        SubmitOutcome::Accepted => now,
        _ => last,
    }
}

impl LastAccepted {
    /// Starts the clock at `now`.
    pub fn new(now: i64) -> (last: LastAccepted)
        ensures
            last@ == now,
    {
        LastAccepted { timestamp: now }
    }

    pub fn timestamp(&self) -> (timestamp: i64)
        ensures
            timestamp == self@,
    {
        self.timestamp
    }

    /// Seconds from the last acceptance to `now`.
    pub fn elapsed(&self, now: i64) -> (elapsed: i128)
        ensures
            elapsed == now - self@,
    {
        now as i128 - self.timestamp as i128
    }

    /// Settles a submission that returned at time `now`. An acceptance moves
    /// the timestamp to `now` and reports the seconds since the previous
    /// acceptance; a rejection or a transport failure changes nothing.
    pub fn settle(&mut self, outcome: SubmitOutcome, now: i64) -> (report: SubmissionReport)
        ensures
            report == report_for(outcome, now, old(self)@),
            final(self)@ == last_after(outcome, now, old(self)@),
    {
        match outcome {
            SubmitOutcome::TransportFailed => SubmissionReport::TransportFailure,
            SubmitOutcome::Rejected => SubmissionReport::Missed,
            SubmitOutcome::Accepted => {
                let elapsed: i128 = self.elapsed(now);
                self.timestamp = now;
                SubmissionReport::Accepted { elapsed }
            },
        }
    }
}

} // verus!
