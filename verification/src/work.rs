//! The shared work state: the latest candidate block and the latest target.
//!
//! One refresher writes it and every worker reads it. Each operation below is
//! meant to run as one critical section of the lock that guards the state, so
//! a reader sees every field either before or after a replacement, never in
//! between.

use crate::candidate::{CandidateBlock, CandidateView};
use crate::target::Target;
use vstd::prelude::*;

verus! {

/// The work as plain values: a block and the number that digests must not
/// exceed.
pub struct WorkView {
    pub block: CandidateView,
    pub target: nat,
}

impl WorkView {
    /// The work after its block has been replaced.
    pub open spec fn with_block(self, block: CandidateView) -> WorkView {
        WorkView { block, ..self }
    }

    /// The work after its target has been replaced.
    pub open spec fn with_target(self, target: nat) -> WorkView {
        WorkView { target, ..self }
    }
}

/// A private copy of the work, taken once and used for a whole batch.
#[derive(Debug)]
pub struct WorkSnapshot {
    pub block: CandidateBlock,
    pub target: Target,
}

impl View for WorkSnapshot {
    type V = WorkView;

    open spec fn view(&self) -> WorkView {
        WorkView { block: self.block@, target: self.target@ }
    }
}

/// The work that all workers mine on.
#[derive(Debug)]
pub struct SharedWorkState {
    block: CandidateBlock,
    target: Target,
}

impl View for SharedWorkState {
    type V = WorkView;

    closed spec fn view(&self) -> WorkView {
        WorkView { block: self.block@, target: self.target@ }
    }
}

impl SharedWorkState {
    /// The state at startup: a placeholder block and the zero target, which
    /// no digest but zero meets.
    pub fn new(placeholder: CandidateBlock) -> (state: SharedWorkState)
        ensures
            state@.block == placeholder@,
            state@.target == 0,
    {
        SharedWorkState { block: placeholder, target: Target::zero() }
    }

    /// Copies the block and the target as they stand.
    pub fn snapshot(&self) -> (snapshot: WorkSnapshot)
        ensures
            snapshot@ == self@,
    {
        WorkSnapshot { block: self.block.clone(), target: self.target.clone() }
    }

    /// Copies the block as it stands.
    pub fn current_block(&self) -> (block: CandidateBlock)
        ensures
            block@ == self@.block,
    {
        self.block.clone()
    }

    /// Copies the target as it stands.
    pub fn live_target(&self) -> (target: Target)
        ensures
            target@ == self@.target,
    {
        self.target.clone()
    }

    /// Replaces the block as a whole and leaves the target alone.
    pub fn install_block(&mut self, block: CandidateBlock)
        ensures
            final(self)@ == old(self)@.with_block(block@),
    {
        self.block = block;
    }

    /// Replaces the target as a whole and leaves the block alone.
    pub fn install_target(&mut self, target: Target)
        ensures
            final(self)@ == old(self)@.with_target(target@),
    {
        self.target = target;
    }
}

} // verus!
