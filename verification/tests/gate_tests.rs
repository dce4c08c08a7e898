use miner_core::gate::{recheck, GateDecision, LastAccepted, SubmissionReport, SubmitOutcome};
use miner_core::target::{Digest, Target};

fn value(n: u64) -> Vec<u8> {
    n.to_be_bytes().to_vec()
}

#[test]
fn digest_under_the_live_target_is_submitted() {
    let decision = recheck(&Digest::from_bytes(value(99)), &Target::from_be_bytes(value(100)));
    assert_eq!(decision, GateDecision::Submit);
}

#[test]
fn digest_equal_to_the_live_target_is_submitted() {
    let decision = recheck(&Digest::from_bytes(value(100)), &Target::from_be_bytes(value(100)));
    assert_eq!(decision, GateDecision::Submit);
}

#[test]
fn digest_over_the_live_target_is_discarded() {
    let decision = recheck(&Digest::from_bytes(value(101)), &Target::from_be_bytes(value(100)));
    assert_eq!(decision, GateDecision::Discard);
}

#[test]
fn recheck_agrees_with_the_numbers_everywhere() {
    for digest in 0..40u64 {
        for target in 0..40u64 {
            let decision = recheck(&Digest::from_bytes(value(digest * 37)), &Target::from_be_bytes(value(target * 37)));
            assert_eq!(decision == GateDecision::Submit, digest <= target);
        }
    }
}

#[test]
fn acceptance_moves_the_timestamp_and_reports_the_seconds() {
    let mut last = LastAccepted::new(1_000);
    let report = last.settle(SubmitOutcome::Accepted, 1_045);
    assert_eq!(report, SubmissionReport::Accepted { elapsed: 45 });
    assert_eq!(last.timestamp(), 1_045);
    let report = last.settle(SubmitOutcome::Accepted, 1_050);
    assert_eq!(report, SubmissionReport::Accepted { elapsed: 5 });
    assert_eq!(last.timestamp(), 1_050);
}

#[test]
fn rejection_is_a_miss_and_changes_nothing() {
    let mut last = LastAccepted::new(1_000);
    assert_eq!(last.settle(SubmitOutcome::Rejected, 2_000), SubmissionReport::Missed);
    assert_eq!(last.timestamp(), 1_000);
}

#[test]
fn transport_failure_is_reported_and_changes_nothing() {
    let mut last = LastAccepted::new(1_000);
    assert_eq!(last.settle(SubmitOutcome::TransportFailed, 2_000), SubmissionReport::TransportFailure);
    assert_eq!(last.timestamp(), 1_000);
}

#[test]
fn elapsed_time_is_exact_at_the_ends_of_the_clock() {
    let mut last = LastAccepted::new(i64::MIN);
    assert_eq!(last.elapsed(i64::MAX), i64::MAX as i128 - i64::MIN as i128);
    let report = last.settle(SubmitOutcome::Accepted, i64::MAX);
    assert_eq!(report, SubmissionReport::Accepted { elapsed: u64::MAX as i128 });
    assert_eq!(last.elapsed(i64::MIN), -(u64::MAX as i128));
}

#[test]
fn clock_that_went_backwards_gives_negative_seconds() {
    let mut last = LastAccepted::new(500);
    assert_eq!(last.settle(SubmitOutcome::Accepted, 400), SubmissionReport::Accepted { elapsed: -100 });
    assert_eq!(last.timestamp(), 400);
}
