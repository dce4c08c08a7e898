//! Candidate blocks: the unit of work that a worker hashes.

use crate::target::Digest;
use vstd::prelude::*;

verus! {

/// A transaction of the chain. The miner carries transactions from the block
/// builder to the node and never looks inside one.
#[verifier::external_type_specification]
#[verifier::external_body]
pub struct ExTransaction(snap_coin::core::transaction::Transaction);

/// Trusted: `Transaction` derives `Clone`, so a clone equals its source field
/// by field.
pub assume_specification[ <snap_coin::core::transaction::Transaction as Clone>::clone ](
    transaction: &snap_coin::core::transaction::Transaction,
) -> (copy: snap_coin::core::transaction::Transaction)
    ensures
        copy == *transaction,
;

/// A tentative block. The block builder fills every field but the last two:
/// `nonce` is the search variable of the workers, and `hash` is set only once
/// a digest of the block has met a target.
#[derive(Debug)]
pub struct CandidateBlock {
    pub transactions: Vec<snap_coin::core::transaction::Transaction>,
    pub timestamp: u64,
    pub block_pow_difficulty: [u8; 32],
    pub tx_pow_difficulty: [u8; 32],
    pub previous_block: [u8; 32],
    pub nonce: u64,
    pub hash: Option<Digest>,
}

/// A candidate block as plain values.
pub struct CandidateView {
    pub transactions: Seq<snap_coin::core::transaction::Transaction>,
    pub timestamp: u64,
    pub block_pow_difficulty: Seq<u8>,
    pub tx_pow_difficulty: Seq<u8>,
    pub previous_block: Seq<u8>,
    pub nonce: u64,
    pub hash: Option<Seq<u8>>,
}

impl CandidateView {
    /// The same block with another nonce and no hash: a trial.
    pub open spec fn trial(self, nonce: u64) -> CandidateView {
        CandidateView { nonce, hash: None, ..self }
    }

    /// The same block with `digest` attached as its hash.
    pub open spec fn sealed(self, digest: Seq<u8>) -> CandidateView {
        CandidateView { hash: Some(digest), ..self }
    }

    /// The same block without a hash.
    pub open spec fn unsealed(self) -> CandidateView {
        CandidateView { hash: None, ..self }
    }
}

impl View for CandidateBlock {
    type V = CandidateView;

    open spec fn view(&self) -> CandidateView {
        CandidateView {
            transactions: self.transactions@,
            timestamp: self.timestamp,
            block_pow_difficulty: self.block_pow_difficulty@,
            tx_pow_difficulty: self.tx_pow_difficulty@,
            previous_block: self.previous_block@,
            nonce: self.nonce,
            hash: match self.hash {
                Some(digest) => Some(digest@),
                None => None,
            },
        }
    }
}

/// The canonical bytes that are hashed for a block, or `None` where the block
/// cannot be encoded. The bytes depend on the block alone.
pub uninterp spec fn hashing_bytes(block: CandidateView) -> Option<Seq<u8>>;

/// Encodes a block for hashing.
///
/// Trusted: rebuilds the chain's `Block` from the fields and calls
/// `Block::get_hashing_buf`, which clears the hash before it encodes, so the
/// bytes are those of the block without its hash.
#[verifier::external_body]
fn encode_for_hashing(block: &CandidateBlock) -> (buffer: Option<Vec<u8>>)
    ensures
        buffer is Some <==> hashing_bytes(block@.unsealed()) is Some,
        buffer matches Some(bytes) ==> hashing_bytes(block@.unsealed()) == Some(bytes@),
{
    let chain_block = snap_coin::core::block::Block {
        transactions: block.transactions.clone(),
        timestamp: block.timestamp,
        nonce: block.nonce,
        block_pow_difficulty: block.block_pow_difficulty,
        tx_pow_difficulty: block.tx_pow_difficulty,
        previous_block: snap_coin::crypto::Hash::new_from_buf(block.previous_block),
        hash: None,
    };
    chain_block.get_hashing_buf().ok()
}

impl Clone for CandidateBlock {
    fn clone(&self) -> (copy: Self)
        ensures
            copy@ == self@,
    {
        let hash = match &self.hash {
            Some(digest) => Some(digest.clone()),
            None => None,
        };
        let copy = CandidateBlock {
            transactions: self.transactions.clone(),
            timestamp: self.timestamp,
            block_pow_difficulty: self.block_pow_difficulty,
            tx_pow_difficulty: self.tx_pow_difficulty,
            previous_block: self.previous_block,
            nonce: self.nonce,
            hash,
        };
        assert(copy.transactions@ =~= self.transactions@);
        copy
    }
}

impl CandidateBlock {
    /// The placeholder block that work starts from: no transactions, nothing
    /// set but the time.
    pub fn placeholder(timestamp: u64) -> (block: CandidateBlock)
        ensures
            block@.transactions.len() == 0,
            block@.timestamp == timestamp,
            block@.nonce == 0,
            block@.hash is None,
            block@.block_pow_difficulty == Seq::new(32, |i: int| 0u8),
            block@.tx_pow_difficulty == Seq::new(32, |i: int| 0u8),
            block@.previous_block == Seq::new(32, |i: int| 0u8),
    {
        CandidateBlock {
            transactions: Vec::new(),
            timestamp,
            block_pow_difficulty: [0u8; 32],
            tx_pow_difficulty: [0u8; 32],
            previous_block: [0u8; 32],
            nonce: 0,
            hash: None,
        }
    }

    /// How many transactions the block holds.
    pub fn transaction_count(&self) -> (count: usize)
        ensures
            count == self@.transactions.len(),
    {
        self.transactions.len()
    }

    /// A copy of the block with `nonce` written into it and no hash.
    pub fn with_nonce(&self, nonce: u64) -> (trial: CandidateBlock)
        ensures
            trial@ == self@.trial(nonce),
    {
        let mut trial = self.clone();
        trial.nonce = nonce;
        trial.hash = None;
        trial
    }

    /// The bytes to hash for this block, whatever hash it carries; `None`
    /// where the block cannot be encoded.
    pub fn hashing_buffer(&self) -> (buffer: Option<Vec<u8>>)
        ensures
            buffer is Some <==> hashing_bytes(self@.unsealed()) is Some,
            buffer matches Some(bytes) ==> hashing_bytes(self@.unsealed()) == Some(bytes@),
    {
        encode_for_hashing(self)
    }

    /// Attaches the digest that met a target.
    pub fn seal(&mut self, digest: &Digest)
        ensures
            final(self)@ == old(self)@.sealed(digest@),
    {
        self.hash = Some(digest.clone());
    }
}

} // verus!
