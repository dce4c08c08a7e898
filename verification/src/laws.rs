//! What holds of the miner as a whole, over every run of its parts.
//!
//! Each shared value is touched in critical sections, one operation of this
//! crate per section, so whatever the threads do, the value goes through a
//! sequence of those operations. The laws below hold of every sequence.

use crate::candidate::CandidateView;
use crate::gate::{last_after, report_for, SubmitOutcome};
use crate::hashing::HashConfigView;
use crate::refresh::{
    derived_target, refresh_next, work_after, RefreshEventView, RefreshStateView,
};
use crate::search::{batch_of_one, batch_result, trial_result};
use crate::target::be_value;
use crate::telemetry::recorded;
use crate::work::WorkView;
use crate::worker::{worker_next, WorkerActionView, WorkerEventView, WorkerStateView};
use vstd::prelude::*;

verus! {

/// The winner of a batch is the winner of one of its trials: the block of the
/// snapshot with that nonce written into it and the digest attached, and a
/// digest that does not exceed the target of the snapshot.
pub proof fn law_batch_winner_won_a_trial(work: WorkView, config: HashConfigView, nonces: Seq<u64>) -> (i: int)
    requires
        batch_result(work, config, nonces) is Found,
    ensures
        0 <= i < nonces.len(),
        batch_of_one(trial_result(work, config, nonces[i])) == batch_result(work, config, nonces),
        batch_result(work, config, nonces)->candidate == work.block.trial(nonces[i]).sealed(
            batch_result(work, config, nonces)->digest,
        ),
        be_value(batch_result(work, config, nonces)->digest) <= work.target,
    decreases nonces.len(),
{
    if trial_result(work, config, nonces.first()) is Found {
        0
    } else {
        let i = law_batch_winner_won_a_trial(work, config, nonces.drop_first());
        assert(nonces.drop_first()[i] == nonces[i + 1]);
        i + 1
    }
}

/// A winner whose digest is `digest` goes to the node exactly when the digest
/// does not exceed the target that was read for the recheck, and then it is that
/// winner, unchanged, that goes.
pub proof fn law_gate_submits_iff_digest_meets_live_target(
    candidate: CandidateView,
    digest: Seq<u8>,
    live: nat,
    batch_size: u64,
)
    ensures
        worker_next(
            WorkerStateView::Found { candidate, digest },
            WorkerEventView::LiveTargetRead { target: live },
            batch_size,
        ).1 is Submit <==> be_value(digest) <= live,
        be_value(digest) <= live ==> worker_next(
            WorkerStateView::Found { candidate, digest },
            WorkerEventView::LiveTargetRead { target: live },
            batch_size,
        ).1 == (WorkerActionView::Submit { candidate }),
{
}

/// No step of a worker submits but the recheck of a winner: whenever a
/// candidate goes to the node, the worker held a winner, was told the live
/// target, and the digest of the winner does not exceed that target.
pub proof fn law_every_submission_passed_the_gate(
    state: WorkerStateView,
    event: WorkerEventView,
    batch_size: u64,
)
    requires
        worker_next(state, event, batch_size).1 is Submit,
    ensures
        state is Found,
        event is LiveTargetRead,
        be_value(state->Found_digest) <= event->target,
        worker_next(state, event, batch_size).1 == (WorkerActionView::Submit {
            candidate: state->candidate,
        }),
{
}

/// The shared work after the refresher has taken `events` one by one from
/// `state`, each action carried out before the next event.
pub open spec fn refreshed_work(
    state: RefreshStateView,
    work: WorkView,
    events: Seq<RefreshEventView>,
) -> WorkView
    decreases events.len(),
{
    if events.len() == 0 {
        work
    } else {
        let (next, action) = refresh_next(state, events.first());
        refreshed_work(next, work_after(work, action), events.drop_first())
    }
}

/// However many refresh cycles fail, and wherever each one fails, the shared
/// work stays what it was: as long as no cycle gets its difficulty, block and
/// target are those from before the first failure.
pub proof fn law_failed_refreshes_keep_the_work(
    state: RefreshStateView,
    work: WorkView,
    events: Seq<RefreshEventView>,
)
    requires
        forall|i: int| 0 <= i < events.len() ==> !(#[trigger] events[i] is DifficultyFetched),
    ensures
        refreshed_work(state, work, events) == work,
    decreases events.len(),
{
    if events.len() > 0 {
        let (next, action) = refresh_next(state, events.first());
        assert(!(events[0] is DifficultyFetched));
        assert(!(action is Install));
        assert forall|i: int| 0 <= i < events.drop_first().len() implies !(
        #[trigger] events.drop_first()[i] is DifficultyFetched) by {
            assert(events.drop_first()[i] == events[i + 1]);
        }
        law_failed_refreshes_keep_the_work(next, work, events.drop_first());
    }
}

/// The same holds where no cycle gets its block: a refresher that is not
/// already waiting for the difficulty installs nothing.
pub proof fn law_refreshes_without_blocks_keep_the_work(
    state: RefreshStateView,
    work: WorkView,
    events: Seq<RefreshEventView>,
)
    requires
        !(state is AwaitingDifficulty),
        forall|i: int| 0 <= i < events.len() ==> !(#[trigger] events[i] is BlockBuilt),
    ensures
        refreshed_work(state, work, events) == work,
    decreases events.len(),
{
    if events.len() > 0 {
        let (next, action) = refresh_next(state, events.first());
        assert(!(events[0] is BlockBuilt));
        assert(!(action is Install));
        assert(!(next is AwaitingDifficulty));
        assert forall|i: int| 0 <= i < events.drop_first().len() implies !(
        #[trigger] events.drop_first()[i] is BlockBuilt) by {
            assert(events.drop_first()[i] == events[i + 1]);
        }
        law_refreshes_without_blocks_keep_the_work(next, work, events.drop_first());
    }
}

/// A cycle that gets its block and then its difficulty installs exactly that
/// block and the target derived for it, whatever the work was before.
pub proof fn law_completed_refresh_installs_block_and_target(
    work: WorkView,
    block: CandidateView,
    raw: Seq<u8>,
)
    ensures
        refreshed_work(
            RefreshStateView::Idle,
            work,
            seq![
                RefreshEventView::Tick,
                RefreshEventView::BlockBuilt { block },
                RefreshEventView::DifficultyFetched { raw },
            ],
        ) == (WorkView {
            block,
            target: derived_target(raw, block.transactions.len() as usize),
        }),
{
    let events = seq![
        RefreshEventView::Tick,
        RefreshEventView::BlockBuilt { block },
        RefreshEventView::DifficultyFetched { raw },
    ];
    let second = events.drop_first();
    let third = second.drop_first();
    assert(events.first() == RefreshEventView::Tick);
    assert(second.first() == (RefreshEventView::BlockBuilt { block }));
    assert(third.first() == (RefreshEventView::DifficultyFetched { raw }));
    assert(third.drop_first().len() == 0);
    reveal_with_fuel(refreshed_work, 4);
}

/// The counter after `batches` exhausted batches of `batch_size` attempts.
pub open spec fn count_after_batches(count: nat, batches: nat, batch_size: u64) -> nat
    decreases batches,
{
    if batches == 0 {
        count
    } else {
        count_after_batches(recorded(count, batch_size), (batches - 1) as nat, batch_size)
    }
}

/// After `batches` exhausted batches and no drain the counter has grown by
/// exactly `batches * batch_size`, as long as that fits in 64 bits.
pub proof fn law_batches_add_up(count: nat, batches: nat, batch_size: u64)
    requires
        count + batches * batch_size <= u64::MAX,
    ensures
        count_after_batches(count, batches, batch_size) == count + batches * batch_size,
    decreases batches,
{
    let size = batch_size as nat;
    if batches == 0 {
        assert(batches * size == 0) by (nonlinear_arith)
            requires
                batches == 0,
        ;
    } else {
        let rest = (batches - 1) as nat;
        assert(batches * size == size + rest * size) by (nonlinear_arith)
            requires
                batches == rest + 1,
        ;
        assert(recorded(count, batch_size) == count + size);
        law_batches_add_up(recorded(count, batch_size), rest, batch_size);
    }
}

/// What is done to the counter in one critical section.
pub enum CounterEvent {
    /// A worker, whichever, records a batch.
    Record { attempts: u64 },
    /// The reporter reads the counter and sets it to zero.
    Drain,
}

/// All attempts that `events` record.
pub open spec fn attempts_recorded(events: Seq<CounterEvent>) -> nat
    decreases events.len(),
{
    if events.len() == 0 {
        0
    } else {
        attempts_recorded(events.drop_last()) + match events.last() {
            CounterEvent::Record { attempts } => attempts as nat,
            CounterEvent::Drain => 0,
        }
    }
}

/// The counter after `events`, from `count`.
pub open spec fn count_after(count: nat, events: Seq<CounterEvent>) -> nat
    decreases events.len(),
{
    if events.len() == 0 {
        count
    } else {
        match events.last() {
            CounterEvent::Record { attempts } => recorded(
                count_after(count, events.drop_last()),
                attempts,
            ),
            CounterEvent::Drain => 0,
        }
    }
}

/// All that the drains among `events` have handed out, from `count`.
pub open spec fn drained_after(count: nat, events: Seq<CounterEvent>) -> nat
    decreases events.len(),
{
    if events.len() == 0 {
        0
    } else {
        drained_after(count, events.drop_last()) + match events.last() {
            CounterEvent::Record { .. } => 0,
            CounterEvent::Drain => count_after(count, events.drop_last()),
        }
    }
}

/// No attempt is lost and none is counted twice, in whatever order workers
/// record and the reporter drains: what has been drained and what the counter
/// still holds add up to all that was recorded, as long as that fits in 64
/// bits.
pub proof fn law_attempts_are_conserved(count: nat, events: Seq<CounterEvent>)
    requires
        count + attempts_recorded(events) <= u64::MAX,
    ensures
        drained_after(count, events) + count_after(count, events) == count + attempts_recorded(
            events,
        ),
    decreases events.len(),
{
    if events.len() > 0 {
        law_attempts_are_conserved(count, events.drop_last());
    }
}

/// Replacing the block and replacing the target do not touch each other: a
/// reader between the two sees the new value of one and the old value of the
/// other, each whole, and the order of the two does not matter in the end.
pub proof fn law_replacements_are_independent(work: WorkView, block: CandidateView, target: nat)
    ensures
        work.with_block(block).block == block,
        work.with_block(block).target == work.target,
        work.with_target(target).target == target,
        work.with_target(target).block == work.block,
        work.with_block(block).with_target(target) == work.with_target(target).with_block(block),
{
}

/// A submission that fails on the way, or that the node turns down, leaves
/// the time of the last acceptance alone; only an acceptance moves it.
pub proof fn law_only_acceptance_moves_the_timestamp(outcome: SubmitOutcome, now: i64, last: i64)
    ensures
        !(outcome is Accepted) ==> last_after(outcome, now, last) == last,
        outcome is Accepted ==> last_after(outcome, now, last) == now,
        report_for(outcome, now, last) is Accepted <==> outcome is Accepted,
{
}

} // verus!
