//! The mining worker as a state machine.
//!
//! A worker takes a snapshot of the shared work, searches one batch on it,
//! and either records the exhausted batch or brings the winner to the
//! submission gate. Reading shared state, searching, submitting and sleeping
//! are done by the caller; the machine says what to do next.

use crate::candidate::{CandidateBlock, CandidateView};
use crate::gate::{gate_decision, recheck, GateDecision, SubmitOutcome};
use crate::search::{BatchOutcome, BatchView};
use crate::target::{be_value, Digest, Target};
use crate::work::{WorkSnapshot, WorkView};
use vstd::prelude::*;

verus! {

/// Where a worker stands.
#[derive(Debug)]
pub enum WorkerState {
    /// About to take a snapshot of the shared work.
    FetchWork,
    /// A batch is running on the snapshot that was taken.
    BatchSearch,
    /// A trial won against the snapshot; the live target is being read.
    Found { candidate: CandidateBlock, digest: Digest },
    /// The candidate is with the node.
    Submitting { digest: Digest },
}

/// What a worker is told.
#[derive(Debug)]
pub enum WorkerEvent {
    /// The snapshot of the shared work has been taken.
    SnapshotTaken { snapshot: WorkSnapshot },
    /// The batch has ended.
    BatchFinished { batch: BatchOutcome },
    /// The target of the shared work state, as read just now.
    LiveTargetRead { target: Target },
    /// The node, or the way to it, has answered.
    SubmissionReturned { outcome: SubmitOutcome },
}

/// What a worker does next. After every action but `Search`, `ReadLiveTarget`
/// and `Submit` the worker takes a new snapshot.
#[derive(Debug)]
pub enum WorkerAction {
    /// Search one batch on the snapshot.
    Search { snapshot: WorkSnapshot },
    /// Read the live target for the recheck.
    ReadLiveTarget,
    /// Hand the candidate to the node.
    Submit { candidate: CandidateBlock },
    /// Add the attempts of the exhausted batch to the counter and yield.
    RecordExhausted { attempts: u64 },
    /// Settle the submission of the block with this digest: record an
    /// acceptance, report a failure on the way, pass over a rejection.
    Settle { outcome: SubmitOutcome, digest: Digest },
    /// Nothing to record.
    Resume,
}

/// A worker state as plain values.
pub enum WorkerStateView {
    FetchWork,
    BatchSearch,
    Found { candidate: CandidateView, digest: Seq<u8> },
    Submitting { digest: Seq<u8> },
}

/// A worker event as plain values.
pub enum WorkerEventView {
    SnapshotTaken { snapshot: WorkView },
    BatchFinished { batch: BatchView },
    LiveTargetRead { target: nat },
    SubmissionReturned { outcome: SubmitOutcome },
}

/// A worker action as plain values.
pub enum WorkerActionView {
    Search { snapshot: WorkView },
    ReadLiveTarget,
    Submit { candidate: CandidateView },
    RecordExhausted { attempts: u64 },
    Settle { outcome: SubmitOutcome, digest: Seq<u8> },
    Resume,
}

impl View for WorkerState {
    type V = WorkerStateView;

    open spec fn view(&self) -> WorkerStateView {
        match self {
            WorkerState::FetchWork => WorkerStateView::FetchWork,
            WorkerState::BatchSearch => WorkerStateView::BatchSearch,
            WorkerState::Found { candidate, digest } => WorkerStateView::Found {
                candidate: candidate@,
                digest: digest@,
            },
            WorkerState::Submitting { digest } => WorkerStateView::Submitting { digest: digest@ },
        }
    }
}

impl View for WorkerEvent {
    type V = WorkerEventView;

    open spec fn view(&self) -> WorkerEventView {
        match self {
            WorkerEvent::SnapshotTaken { snapshot } => WorkerEventView::SnapshotTaken {
                snapshot: snapshot@,
            },
            WorkerEvent::BatchFinished { batch } => WorkerEventView::BatchFinished {
                batch: batch@,
            },
            WorkerEvent::LiveTargetRead { target } => WorkerEventView::LiveTargetRead {
                target: target@,
            },
            WorkerEvent::SubmissionReturned { outcome } => WorkerEventView::SubmissionReturned {
                outcome: *outcome,
            },
        }
    }
}

impl View for WorkerAction {
    type V = WorkerActionView;

    open spec fn view(&self) -> WorkerActionView {
        match self {
            WorkerAction::Search { snapshot } => WorkerActionView::Search { snapshot: snapshot@ },
            WorkerAction::ReadLiveTarget => WorkerActionView::ReadLiveTarget,
            WorkerAction::Submit { candidate } => WorkerActionView::Submit {
                candidate: candidate@,
            },
            WorkerAction::RecordExhausted { attempts } => WorkerActionView::RecordExhausted {
                attempts: *attempts,
            },
            WorkerAction::Settle { outcome, digest } => WorkerActionView::Settle {
                outcome: *outcome,
                digest: digest@,
            },
            WorkerAction::Resume => WorkerActionView::Resume,
        }
    }
}

/// The step of a worker whose batches hold `batch_size` trials.
///
/// A snapshot starts a batch. An exhausted batch is recorded with its full
/// size. A winner waits for the live target and goes to the node only if its
/// digest still meets that target; otherwise it is dropped. Whatever the node
/// answers, the answer is settled and the worker goes back to fetching work,
/// with no second attempt for the same candidate. An event that the state
/// does not wait for sends the worker back to fetching work as well, with
/// nothing submitted and nothing recorded.
pub open spec fn worker_next(state: WorkerStateView, event: WorkerEventView, batch_size: u64) -> (
    WorkerStateView,
    WorkerActionView,
) {
    match (state, event) {
        (WorkerStateView::FetchWork, WorkerEventView::SnapshotTaken { snapshot }) => (
            WorkerStateView::BatchSearch,
            WorkerActionView::Search { snapshot },
        ),
        (
            WorkerStateView::BatchSearch,
            WorkerEventView::BatchFinished { batch: BatchView::Found { candidate, digest } },
        ) => (WorkerStateView::Found { candidate, digest }, WorkerActionView::ReadLiveTarget),
        (
            WorkerStateView::BatchSearch,
            WorkerEventView::BatchFinished { batch: BatchView::Exhausted },
        ) => (WorkerStateView::FetchWork, WorkerActionView::RecordExhausted { attempts: batch_size }),
        (
            WorkerStateView::Found { candidate, digest },
            WorkerEventView::LiveTargetRead { target },
        ) => match gate_decision(be_value(digest), target) {
            GateDecision::Submit => (
                WorkerStateView::Submitting { digest },
                WorkerActionView::Submit { candidate },
            ),
            GateDecision::Discard => (WorkerStateView::FetchWork, WorkerActionView::Resume),
        },
        (
            WorkerStateView::Submitting { digest },
            WorkerEventView::SubmissionReturned { outcome },
        ) => (WorkerStateView::FetchWork, WorkerActionView::Settle { outcome, digest }),
        _ => (WorkerStateView::FetchWork, WorkerActionView::Resume),
    }
}

/// Takes one step of a worker.
pub fn worker_step(state: WorkerState, event: WorkerEvent, batch_size: u64) -> (next: (
    WorkerState,
    WorkerAction,
))
    ensures
        (next.0@, next.1@) == worker_next(state@, event@, batch_size),
{
    match (state, event) {
        (WorkerState::FetchWork, WorkerEvent::SnapshotTaken { snapshot }) => (
            WorkerState::BatchSearch,
            WorkerAction::Search { snapshot },
        ),
        (
            WorkerState::BatchSearch,
            WorkerEvent::BatchFinished { batch: BatchOutcome::Found { candidate, digest } },
        ) => (WorkerState::Found { candidate, digest }, WorkerAction::ReadLiveTarget),
        (
            WorkerState::BatchSearch,
            WorkerEvent::BatchFinished { batch: BatchOutcome::Exhausted },
        ) => (WorkerState::FetchWork, WorkerAction::RecordExhausted { attempts: batch_size }),
        (WorkerState::Found { candidate, digest }, WorkerEvent::LiveTargetRead { target }) => {
            match recheck(&digest, &target) {
                GateDecision::Submit => (
                    WorkerState::Submitting { digest },
                    WorkerAction::Submit { candidate },
                ),
                GateDecision::Discard => (WorkerState::FetchWork, WorkerAction::Resume),
            }
        },
        (WorkerState::Submitting { digest }, WorkerEvent::SubmissionReturned { outcome }) => (
            WorkerState::FetchWork,
            WorkerAction::Settle { outcome, digest },
        ),
        _ => (WorkerState::FetchWork, WorkerAction::Resume),
    }
}

} // verus!
