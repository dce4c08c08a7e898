//! The work refresher: on every tick it asks for a fresh block, then for the
//! node's difficulty, and installs both only if both arrived.
//!
//! The refresher itself waits for the network; here stand its decisions, as a
//! step from a state and an event to the next state and an action.

use crate::candidate::{CandidateBlock, CandidateView};
use crate::target::{be_value, Target};
use crate::work::{SharedWorkState, WorkView};
use vstd::prelude::*;

verus! {

/// The bytes of the target for a block with `tx_count` transactions under the
/// difficulty `raw` that the node reports, most significant byte first. They
/// depend on the two values alone.
pub uninterp spec fn decayed_difficulty(raw: Seq<u8>, tx_count: usize) -> Seq<u8>;

/// Trusted: `calculate_block_difficulty` of the chain library scales the
/// reported difficulty by a factor that grows with the number of
/// transactions, caps the product at 256 bits and returns it as 32 bytes. It
/// reads nothing but its two arguments; the factor is rounded in floating
/// point, so the bytes are named here and not spelled out.
pub assume_specification[ snap_coin::core::difficulty::calculate_block_difficulty ](
    block_difficulty: &[u8; 32],
    tx_count: usize,
) -> (target: [u8; 32])
    ensures
        target@ == decayed_difficulty(block_difficulty@, tx_count),
;

/// The target as a number for a block with `tx_count` transactions under the
/// reported difficulty `raw`.
pub open spec fn derived_target(raw: Seq<u8>, tx_count: usize) -> nat {
    be_value(decayed_difficulty(raw, tx_count))
}

/// Converts the difficulty that the node reports into the target for a block
/// with `tx_count` transactions.
pub fn derive_target(raw: &[u8; 32], tx_count: usize) -> (target: Target)
    ensures
        target.bytes@ == decayed_difficulty(raw@, tx_count),
        target@ == derived_target(raw@, tx_count),
{
    let bytes: [u8; 32] = snap_coin::core::difficulty::calculate_block_difficulty(raw, tx_count);
    let mut out: Vec<u8> = Vec::new();
    let mut i: usize = 0;
    while i < 32
        invariant
            i <= 32,
            out@ == bytes@.subrange(0, i as int),
        decreases 32 - i,
    {
        out.push(bytes[i]);
        i += 1;
    }
    assert(out@ == bytes@);
    Target::from_be_bytes(out)
}

/// Where the refresher stands within a tick.
#[derive(Debug)]
pub enum RefreshState {
    /// Between ticks.
    Idle,
    /// A block has been asked for.
    AwaitingBlock,
    /// The block is here and the difficulty has been asked for.
    AwaitingDifficulty { block: CandidateBlock },
}

/// What the refresher is told.
#[derive(Debug)]
pub enum RefreshEvent {
    /// The refresh interval has passed.
    Tick,
    /// The block builder returned a block.
    BlockBuilt { block: CandidateBlock },
    /// Fetching the pending transactions or building the block failed.
    BlockFailed,
    /// The node reported its difficulty.
    DifficultyFetched { raw: [u8; 32] },
    /// Fetching the difficulty failed.
    DifficultyFailed,
}

/// What the refresher asks for next.
#[derive(Debug)]
pub enum RefreshAction {
    /// Fetch the pending transactions and build a block from them.
    BuildBlock,
    /// Fetch the difficulty that the node reports.
    FetchDifficulty,
    /// Replace the block, then the target, of the shared work state.
    Install { block: CandidateBlock, target: Target },
    /// Nothing until the next tick; the shared work state stays as it is.
    Wait,
}

/// A refresher state as plain values.
pub enum RefreshStateView {
    Idle,
    AwaitingBlock,
    AwaitingDifficulty { block: CandidateView },
}

/// A refresher event as plain values.
pub enum RefreshEventView {
    Tick,
    BlockBuilt { block: CandidateView },
    BlockFailed,
    DifficultyFetched { raw: Seq<u8> },
    DifficultyFailed,
}

/// A refresher action as plain values.
pub enum RefreshActionView {
    BuildBlock,
    FetchDifficulty,
    Install { block: CandidateView, target: nat },
    Wait,
}

impl View for RefreshState {
    type V = RefreshStateView;

    open spec fn view(&self) -> RefreshStateView {
        match self {
            RefreshState::Idle => RefreshStateView::Idle,
            RefreshState::AwaitingBlock => RefreshStateView::AwaitingBlock,
            RefreshState::AwaitingDifficulty { block } => RefreshStateView::AwaitingDifficulty {
                block: block@,
            },
        }
    }
}

impl View for RefreshEvent {
    type V = RefreshEventView;

    open spec fn view(&self) -> RefreshEventView {
        match self {
            RefreshEvent::Tick => RefreshEventView::Tick,
            RefreshEvent::BlockBuilt { block } => RefreshEventView::BlockBuilt { block: block@ },
            RefreshEvent::BlockFailed => RefreshEventView::BlockFailed,
            RefreshEvent::DifficultyFetched { raw } => RefreshEventView::DifficultyFetched {
                raw: raw@,
            },
            RefreshEvent::DifficultyFailed => RefreshEventView::DifficultyFailed,
        }
    }
}

impl View for RefreshAction {
    type V = RefreshActionView;

    open spec fn view(&self) -> RefreshActionView {
        match self {
            RefreshAction::BuildBlock => RefreshActionView::BuildBlock,
            RefreshAction::FetchDifficulty => RefreshActionView::FetchDifficulty,
            RefreshAction::Install { block, target } => RefreshActionView::Install {
                block: block@,
                target: target@,
            },
            RefreshAction::Wait => RefreshActionView::Wait,
        }
    }
}

/// The step of the refresher. A tick starts a cycle; a block leads to the
/// difficulty; the difficulty completes the cycle with an installation; a
/// failure at either point ends the cycle with nothing installed. An event
/// that the state does not wait for abandons the cycle, again with nothing
/// installed.
pub open spec fn refresh_next(state: RefreshStateView, event: RefreshEventView) -> (
    RefreshStateView,
    RefreshActionView,
) {
    match (state, event) {
        (RefreshStateView::Idle, RefreshEventView::Tick) => (
            RefreshStateView::AwaitingBlock,
            RefreshActionView::BuildBlock,
        ),
        (RefreshStateView::AwaitingBlock, RefreshEventView::BlockBuilt { block }) => (
            RefreshStateView::AwaitingDifficulty { block },
            RefreshActionView::FetchDifficulty,
        ),
        (RefreshStateView::AwaitingBlock, RefreshEventView::BlockFailed) => (
            RefreshStateView::Idle,
            RefreshActionView::Wait,
        ),
        (
            RefreshStateView::AwaitingDifficulty { block },
            RefreshEventView::DifficultyFetched { raw },
        ) => (
            RefreshStateView::Idle,
            RefreshActionView::Install {
                block,
                target: derived_target(raw, block.transactions.len() as usize),
            },
        ),
        (RefreshStateView::AwaitingDifficulty { block }, RefreshEventView::DifficultyFailed) => (
            RefreshStateView::Idle,
            RefreshActionView::Wait,
        ),
        _ => (RefreshStateView::Idle, RefreshActionView::Wait),
    }
}

/// The shared work after an action of the refresher has been carried out:
/// an installation replaces block and target, nothing else touches them.
pub open spec fn work_after(work: WorkView, action: RefreshActionView) -> WorkView {
    match action {
        RefreshActionView::Install { block, target } => WorkView { block, target },
        _ => work,
    }
}

/// Takes one step of the refresher.
pub fn refresh_step(state: RefreshState, event: RefreshEvent) -> (next: (
    RefreshState,
    RefreshAction,
))
    ensures
        (next.0@, next.1@) == refresh_next(state@, event@),
{
    match (state, event) {
        (RefreshState::Idle, RefreshEvent::Tick) => (
            RefreshState::AwaitingBlock,
            RefreshAction::BuildBlock,
        ),
        (RefreshState::AwaitingBlock, RefreshEvent::BlockBuilt { block }) => (
            RefreshState::AwaitingDifficulty { block },
            RefreshAction::FetchDifficulty,
        ),
        (RefreshState::AwaitingBlock, RefreshEvent::BlockFailed) => (
            RefreshState::Idle,
            RefreshAction::Wait,
        ),
        (RefreshState::AwaitingDifficulty { block }, RefreshEvent::DifficultyFetched { raw }) => {
            let target = derive_target(&raw, block.transaction_count());
            (RefreshState::Idle, RefreshAction::Install { block, target })
        },
        (RefreshState::AwaitingDifficulty { block }, RefreshEvent::DifficultyFailed) => (
            RefreshState::Idle,
            RefreshAction::Wait,
        ),
        _ => (RefreshState::Idle, RefreshAction::Wait),
    }
}

/// Carries out an action of the refresher on the shared work state: an
/// installation replaces the block and then the target, any other action
/// leaves the state as it was.
pub fn carry_out(work: &mut SharedWorkState, action: RefreshAction) -> (installed: bool)
    ensures
        final(work)@ == work_after(old(work)@, action@),
        installed == (action is Install),
{
    match action {
        RefreshAction::Install { block, target } => {
            work.install_block(block);
            work.install_target(target);
            true
        },
        _ => false,
    }
}

} // verus!
