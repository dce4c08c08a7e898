use miner_core::candidate::CandidateBlock;
use miner_core::gate::{LastAccepted, SubmissionReport, SubmitOutcome};
use miner_core::search::BatchOutcome;
use miner_core::target::{Digest, Target};
use miner_core::telemetry::HashAttemptCounter;
use miner_core::work::{SharedWorkState, WorkSnapshot};
use miner_core::worker::{worker_step, WorkerAction, WorkerEvent, WorkerState};

fn value(n: u64) -> Vec<u8> {
    n.to_be_bytes().to_vec()
}

fn winner(nonce: u64, digest: u64) -> (CandidateBlock, Digest) {
    let mut candidate = CandidateBlock::placeholder(10).with_nonce(nonce);
    let digest = Digest::from_bytes(value(digest));
    candidate.seal(&digest);
    (candidate, digest)
}

fn found(nonce: u64, digest: u64) -> WorkerState {
    let (candidate, digest) = winner(nonce, digest);
    WorkerState::Found { candidate, digest }
}

#[test]
fn snapshot_starts_a_batch_on_that_snapshot() {
    let snapshot = WorkSnapshot { block: CandidateBlock::placeholder(33), target: Target::from_be_bytes(value(9)) };
    let (state, action) = worker_step(WorkerState::FetchWork, WorkerEvent::SnapshotTaken { snapshot }, 20);
    assert!(matches!(state, WorkerState::BatchSearch));
    match action {
        WorkerAction::Search { snapshot } => {
            assert_eq!(snapshot.block.timestamp, 33);
            assert_eq!(snapshot.target.bytes, value(9));
        }
        _ => panic!("no search was started"),
    }
}

#[test]
fn exhausted_batch_is_recorded_with_its_size() {
    let (state, action) =
        worker_step(WorkerState::BatchSearch, WorkerEvent::BatchFinished { batch: BatchOutcome::Exhausted }, 20);
    assert!(matches!(state, WorkerState::FetchWork));
    assert!(matches!(action, WorkerAction::RecordExhausted { attempts: 20 }));

    let (_, action) =
        worker_step(WorkerState::BatchSearch, WorkerEvent::BatchFinished { batch: BatchOutcome::Exhausted }, 7);
    assert!(matches!(action, WorkerAction::RecordExhausted { attempts: 7 }));
}

#[test]
fn winner_waits_for_the_live_target() {
    let (candidate, digest) = winner(5, 50);
    let (state, action) = worker_step(
        WorkerState::BatchSearch,
        WorkerEvent::BatchFinished { batch: BatchOutcome::Found { candidate, digest } },
        20,
    );
    assert!(matches!(action, WorkerAction::ReadLiveTarget));
    match state {
        WorkerState::Found { candidate, digest } => {
            assert_eq!(candidate.nonce, 5);
            assert_eq!(digest, Digest::from_bytes(value(50)));
        }
        _ => panic!("the winner was not kept"),
    }
}

#[test]
fn winner_that_meets_the_live_target_is_submitted_unchanged() {
    let (state, action) =
        worker_step(found(5, 50), WorkerEvent::LiveTargetRead { target: Target::from_be_bytes(value(50)) }, 20);
    match state {
        WorkerState::Submitting { digest } => assert_eq!(digest, Digest::from_bytes(value(50))),
        _ => panic!("the worker is not submitting"),
    }
    match action {
        WorkerAction::Submit { candidate } => {
            assert_eq!(candidate.nonce, 5);
            assert_eq!(candidate.hash, Some(Digest::from_bytes(value(50))));
            assert_eq!(candidate.timestamp, 10);
        }
        _ => panic!("nothing was submitted"),
    }
}

#[test]
fn stale_winner_is_discarded_without_a_submission() {
    // the digest 80 won against the target 100 of its batch; before the
    // submission the refresher installed 60
    let mut work = SharedWorkState::new(CandidateBlock::placeholder(1));
    work.install_target(Target::from_be_bytes(value(100)));
    let snapshot = work.snapshot();
    let digest = Digest::from_bytes(value(80));
    assert!(digest.meets(&snapshot.target));

    work.install_target(Target::from_be_bytes(value(60)));

    let (state, action) = worker_step(found(3, 80), WorkerEvent::LiveTargetRead { target: work.live_target() }, 20);
    assert!(matches!(state, WorkerState::FetchWork));
    assert!(matches!(action, WorkerAction::Resume));
}

#[test]
fn winner_of_a_harder_batch_is_submitted_under_an_easier_live_target() {
    let (_, action) =
        worker_step(found(3, 80), WorkerEvent::LiveTargetRead { target: Target::from_be_bytes(value(500)) }, 20);
    assert!(matches!(action, WorkerAction::Submit { .. }));
}

#[test]
fn submission_is_attempted_exactly_when_the_digest_meets_the_live_target() {
    for digest in 0..30u64 {
        for live in 0..30u64 {
            let (_, action) = worker_step(
                found(1, digest * 1000),
                WorkerEvent::LiveTargetRead { target: Target::from_be_bytes(value(live * 1000)) },
                20,
            );
            assert_eq!(matches!(action, WorkerAction::Submit { .. }), digest <= live);
        }
    }
}

#[test]
fn every_answer_is_settled_with_the_digest_and_ends_the_round() {
    for outcome in [SubmitOutcome::Accepted, SubmitOutcome::Rejected, SubmitOutcome::TransportFailed] {
        let (state, action) = worker_step(
            WorkerState::Submitting { digest: Digest::from_bytes(value(50)) },
            WorkerEvent::SubmissionReturned { outcome },
            20,
        );
        assert!(matches!(state, WorkerState::FetchWork));
        match action {
            WorkerAction::Settle { outcome: settled, digest } => {
                assert_eq!(settled, outcome);
                assert_eq!(digest, Digest::from_bytes(value(50)));
            }
            _ => panic!("the answer was not settled"),
        }
    }
}

#[test]
fn rejection_is_a_silent_miss() {
    let mut last = LastAccepted::new(1_000);
    let (_, action) = worker_step(
        WorkerState::Submitting { digest: Digest::from_bytes(value(50)) },
        WorkerEvent::SubmissionReturned { outcome: SubmitOutcome::Rejected },
        20,
    );
    match action {
        WorkerAction::Settle { outcome, .. } => {
            assert_eq!(last.settle(outcome, 2_000), SubmissionReport::Missed);
            assert_eq!(last.timestamp(), 1_000);
        }
        _ => panic!("the answer was not settled"),
    }
}

#[test]
fn transport_error_changes_no_counter_timestamp_or_work() {
    let mut work = SharedWorkState::new(CandidateBlock::placeholder(1));
    work.install_target(Target::from_be_bytes(value(100)));
    let mut counter = HashAttemptCounter::new();
    counter.record(40);
    let mut last = LastAccepted::new(1_000);
    let before = (format!("{:?}", work), counter.count(), last.timestamp());

    let (state, action) = worker_step(
        WorkerState::Submitting { digest: Digest::from_bytes(value(50)) },
        WorkerEvent::SubmissionReturned { outcome: SubmitOutcome::TransportFailed },
        20,
    );
    // the worker is told to settle the failure, which is a report and nothing else
    assert!(matches!(state, WorkerState::FetchWork));
    match action {
        WorkerAction::Settle { outcome, .. } => {
            assert_eq!(outcome, SubmitOutcome::TransportFailed);
            assert_eq!(last.settle(outcome, 5_000), SubmissionReport::TransportFailure);
        }
        _ => panic!("the failure was not settled"),
    }

    assert_eq!((format!("{:?}", work), counter.count(), last.timestamp()), before);
}

#[test]
fn events_out_of_turn_send_the_worker_back_to_fetching_work() {
    let (state, action) = worker_step(
        WorkerState::FetchWork,
        WorkerEvent::LiveTargetRead { target: Target::from_be_bytes(value(u64::MAX)) },
        20,
    );
    assert!(matches!(state, WorkerState::FetchWork));
    assert!(matches!(action, WorkerAction::Resume));

    let (state, action) = worker_step(
        WorkerState::BatchSearch,
        WorkerEvent::SubmissionReturned { outcome: SubmitOutcome::Accepted },
        20,
    );
    assert!(matches!(state, WorkerState::FetchWork));
    assert!(matches!(action, WorkerAction::Resume));

    let (state, action) =
        worker_step(found(1, 1), WorkerEvent::BatchFinished { batch: BatchOutcome::Exhausted }, 20);
    assert!(matches!(state, WorkerState::FetchWork));
    assert!(matches!(action, WorkerAction::Resume));

    let (state, action) = worker_step(
        WorkerState::Submitting { digest: Digest::from_bytes(value(1)) },
        WorkerEvent::LiveTargetRead { target: Target::from_be_bytes(value(u64::MAX)) },
        20,
    );
    assert!(matches!(state, WorkerState::FetchWork));
    assert!(matches!(action, WorkerAction::Resume));
}

#[test]
fn full_round_from_snapshot_to_acceptance() {
    let mut work = SharedWorkState::new(CandidateBlock::placeholder(1));
    work.install_target(Target::from_be_bytes(value(100)));
    let mut last = LastAccepted::new(1_000);

    let (state, action) = worker_step(WorkerState::FetchWork, WorkerEvent::SnapshotTaken { snapshot: work.snapshot() }, 20);
    assert!(matches!(action, WorkerAction::Search { .. }));
    let (candidate, digest) = winner(8, 70);
    let (state, action) =
        worker_step(state, WorkerEvent::BatchFinished { batch: BatchOutcome::Found { candidate, digest } }, 20);
    assert!(matches!(action, WorkerAction::ReadLiveTarget));
    let (state, action) = worker_step(state, WorkerEvent::LiveTargetRead { target: work.live_target() }, 20);
    assert!(matches!(action, WorkerAction::Submit { .. }));
    let (state, action) =
        worker_step(state, WorkerEvent::SubmissionReturned { outcome: SubmitOutcome::Accepted }, 20);
    assert!(matches!(state, WorkerState::FetchWork));
    match action {
        WorkerAction::Settle { outcome, digest } => {
            assert_eq!(digest, Digest::from_bytes(value(70)));
            assert_eq!(last.settle(outcome, 1_030), SubmissionReport::Accepted { elapsed: 30 });
        }
        _ => panic!("the answer was not settled"),
    }
    assert_eq!(last.timestamp(), 1_030);
}
