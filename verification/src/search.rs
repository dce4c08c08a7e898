//! The nonce search: trials of one candidate against one snapshot.

use crate::candidate::{hashing_bytes, CandidateBlock, CandidateView};
use crate::hashing::{evaluation, HashConfigView, HashError, HashEvaluator};
use crate::target::{be_value, Digest, Target};
use crate::work::{WorkSnapshot, WorkView};
use rand::Rng;
use vstd::prelude::*;

verus! {

/// Trials in one batch unless the caller chooses otherwise.
pub const BATCH_SIZE: u64 = 20;

/// The generator of the current thread.
#[verifier::external_type_specification]
#[verifier::external_body]
pub struct ExThreadRng(rand::rngs::ThreadRng);

/// Trusted: `rand::rng` hands out the generator of the calling thread.
/// Nothing is known of the numbers it will give.
pub assume_specification[ rand::rng ]() -> (rng: rand::rngs::ThreadRng)
;

/// Draws one number.
///
/// Trusted: calls `Rng::random` for a `u64`. The result is any `u64`.
#[verifier::external_body]
fn draw(rng: &mut rand::rngs::ThreadRng) -> (nonce: u64) {
    rng.random::<u64>()
}

/// A stream of random nonces, one per worker.
pub struct NonceSource {
    rng: rand::rngs::ThreadRng,
}

impl NonceSource {
    /// A stream fed by the generator of the calling thread.
    pub fn new() -> (source: NonceSource) {
        NonceSource { rng: rand::rng() }
    }

    /// The next nonce: any 64-bit value.
    pub fn next_nonce(&mut self) -> (nonce: u64) {
        draw(&mut self.rng)
    }
}

/// How one trial ended.
#[derive(Debug)]
pub enum TrialOutcome {
    /// The block could not be encoded or the buffer could not be hashed; the
    /// trial counts for nothing.
    Skipped,
    /// The digest exceeds the target of the snapshot.
    Missed { digest: Digest },
    /// The digest meets the target of the snapshot; the candidate carries it.
    Found { candidate: CandidateBlock, digest: Digest },
}

/// A trial outcome as plain values.
pub enum TrialView {
    Skipped,
    Missed { digest: Seq<u8> },
    Found { candidate: CandidateView, digest: Seq<u8> },
}

impl View for TrialOutcome {
    type V = TrialView;

    open spec fn view(&self) -> TrialView {
        match self {
            TrialOutcome::Skipped => TrialView::Skipped,
            TrialOutcome::Missed { digest } => TrialView::Missed { digest: digest@ },
            TrialOutcome::Found { candidate, digest } => TrialView::Found {
                candidate: candidate@,
                digest: digest@,
            },
        }
    }
}

/// The result of an evaluation with the digest as plain bytes.
pub open spec fn evaluated_view(evaluated: Result<Digest, HashError>) -> Result<
    Seq<u8>,
    HashError,
> {
    match evaluated {
        Ok(digest) => Ok(digest@),
        Err(e) => Err(e),
    }
}

/// The outcome of a trial once its digest is known: an error skips the trial,
/// a digest up to the target wins and is attached to the candidate, any other
/// digest misses.
pub open spec fn judged(target: nat, trial: CandidateView, evaluated: Result<Seq<u8>, HashError>)
    -> TrialView {
    match evaluated {
        Err(_) => TrialView::Skipped,
        Ok(digest) => if be_value(digest) <= target {
            TrialView::Found { candidate: trial.sealed(digest), digest }
        } else {
            TrialView::Missed { digest }
        },
    }
}

/// The outcome of the trial of one nonce on a snapshot: the block takes the
/// nonce, is encoded and hashed, and the digest is judged against the target
/// of the snapshot. A block that cannot be encoded skips the trial.
pub open spec fn trial_result(work: WorkView, config: HashConfigView, nonce: u64) -> TrialView {
    let trial = work.block.trial(nonce);
    match hashing_bytes(trial) {
        None => TrialView::Skipped,
        Some(buffer) => judged(work.target, trial, evaluation(config, buffer)),
    }
}

/// Judges a trial whose digest has been evaluated.
pub fn judge_trial(target: &Target, trial: CandidateBlock, evaluated: Result<Digest, HashError>)
    -> (outcome: TrialOutcome)
    ensures
        outcome@ == judged(target@, trial@, evaluated_view(evaluated)),
{
    match evaluated {
        Err(_) => TrialOutcome::Skipped,
        Ok(digest) => {
            if digest.meets(target) {
                let mut candidate = trial;
                candidate.seal(&digest);
                TrialOutcome::Found { candidate, digest }
            } else {
                TrialOutcome::Missed { digest }
            }
        },
    }
}

/// Tries one nonce on a snapshot.
pub fn try_nonce(snapshot: &WorkSnapshot, evaluator: &HashEvaluator, nonce: u64) -> (outcome:
    TrialOutcome)
    ensures
        outcome@ == trial_result(snapshot@, evaluator@, nonce),
{
    let trial = snapshot.block.with_nonce(nonce);
    match trial.hashing_buffer() {
        None => TrialOutcome::Skipped,
        Some(buffer) => {
            let evaluated = evaluator.evaluate(buffer.as_slice());
            judge_trial(&snapshot.target, trial, evaluated)
        },
    }
}

/// How a batch ended.
#[derive(Debug)]
pub enum BatchOutcome {
    /// A trial won; the batch stopped there.
    Found { candidate: CandidateBlock, digest: Digest },
    /// Every trial of the batch was skipped or missed.
    Exhausted,
}

/// A batch outcome as plain values.
pub enum BatchView {
    Found { candidate: CandidateView, digest: Seq<u8> },
    Exhausted,
}

impl View for BatchOutcome {
    type V = BatchView;

    open spec fn view(&self) -> BatchView {
        match self {
            BatchOutcome::Found { candidate, digest } => BatchView::Found {
                candidate: candidate@,
                digest: digest@,
            },
            BatchOutcome::Exhausted => BatchView::Exhausted,
        }
    }
}

/// How a batch that consists of one trial ends.
pub open spec fn batch_of_one(trial: TrialView) -> BatchView {
    match trial {
        TrialView::Found { candidate, digest } => BatchView::Found { candidate, digest },
        _ => BatchView::Exhausted,
    }
}

/// The outcome of trying `nonces` in order on one snapshot: the first trial
/// that wins ends the batch, and a batch without a winner is exhausted.
pub open spec fn batch_result(work: WorkView, config: HashConfigView, nonces: Seq<u64>) -> BatchView
    decreases nonces.len(),
{
    if nonces.len() == 0 {
        BatchView::Exhausted
    } else {
        match trial_result(work, config, nonces.first()) {
            TrialView::Found { candidate, digest } => BatchView::Found { candidate, digest },
            _ => batch_result(work, config, nonces.drop_first()),
        }
    }
}

/// A batch that was exhausted so far ends as its next trial does.
pub proof fn lemma_batch_extends(
    work: WorkView,
    config: HashConfigView,
    nonces: Seq<u64>,
    nonce: u64,
)
    requires
        batch_result(work, config, nonces) is Exhausted,
    ensures
        batch_result(work, config, nonces.push(nonce)) == batch_of_one(
            trial_result(work, config, nonce),
        ),
    decreases nonces.len(),
{
    if nonces.len() == 0 {
        assert(nonces.push(nonce).first() == nonce);
        assert(nonces.push(nonce).drop_first() =~= Seq::<u64>::empty());
        assert(batch_result(work, config, Seq::<u64>::empty()) is Exhausted);
    } else {
        assert(nonces.push(nonce).first() == nonces.first());
        assert(nonces.push(nonce).drop_first() =~= nonces.drop_first().push(nonce));
        lemma_batch_extends(work, config, nonces.drop_first(), nonce);
    }
}

/// A batch that has found a winner within its first `n` nonces ends the same
/// way whatever follows them.
pub proof fn lemma_batch_stops(work: WorkView, config: HashConfigView, nonces: Seq<u64>, n: int)
    requires
        0 <= n <= nonces.len(),
        batch_result(work, config, nonces.subrange(0, n)) is Found,
    ensures
        batch_result(work, config, nonces) == batch_result(work, config, nonces.subrange(0, n)),
    decreases n,
{
    let head = nonces.subrange(0, n);
    if n == 0 {
    } else {
        assert(head.first() == nonces.first());
        if trial_result(work, config, nonces.first()) is Found {
        } else {
            assert(head.drop_first() =~= nonces.drop_first().subrange(0, n - 1));
            lemma_batch_stops(work, config, nonces.drop_first(), n - 1);
        }
    }
}

/// Tries the given nonces in order on one snapshot.
pub fn search_nonces(snapshot: &WorkSnapshot, evaluator: &HashEvaluator, nonces: &[u64]) -> (outcome:
    BatchOutcome)
    ensures
        outcome@ == batch_result(snapshot@, evaluator@, nonces@),
{
    let mut i: usize = 0;
    while i < nonces.len()
        invariant
            i <= nonces.len(),
            batch_result(snapshot@, evaluator@, nonces@.subrange(0, i as int)) is Exhausted,
        decreases nonces.len() - i,
    {
        let outcome = try_nonce(snapshot, evaluator, nonces[i]);
        proof {
            lemma_batch_extends(
                snapshot@,
                evaluator@,
                nonces@.subrange(0, i as int),
                nonces@[i as int],
            );
            assert(nonces@.subrange(0, i as int).push(nonces@[i as int]) =~= nonces@.subrange(
                0,
                i + 1,
            ));
        }
        match outcome {
            TrialOutcome::Found { candidate, digest } => {
                proof {
                    lemma_batch_stops(snapshot@, evaluator@, nonces@, i + 1);
                }
                return BatchOutcome::Found { candidate, digest };
            },
            _ => {},
        }
        i += 1;
    }
    assert(nonces@.subrange(0, i as int) =~= nonces@);
    BatchOutcome::Exhausted
}

/// Runs one batch: draws up to `batch_size` random nonces and tries each in
/// turn, stopping at the first winner. Whatever was drawn, the outcome is the
/// batch result of the nonces drawn, and a batch is exhausted only after all
/// `batch_size` trials.
pub fn search_batch(
    snapshot: &WorkSnapshot,
    evaluator: &HashEvaluator,
    source: &mut NonceSource,
    batch_size: u64,
) -> (outcome: BatchOutcome)
    ensures
        exists|drawn: Seq<u64>|
            drawn.len() <= batch_size && #[trigger] batch_result(snapshot@, evaluator@, drawn)
                == outcome@ && (outcome is Exhausted ==> drawn.len() == batch_size),
{
    let ghost mut drawn: Seq<u64> = Seq::empty();
    let mut tried: u64 = 0;
    while tried < batch_size
        invariant
            tried <= batch_size,
            drawn.len() == tried,
            batch_result(snapshot@, evaluator@, drawn) is Exhausted,
        decreases batch_size - tried,
    {
        let nonce: u64 = source.next_nonce();
        let outcome = try_nonce(snapshot, evaluator, nonce);
        proof {
            lemma_batch_extends(snapshot@, evaluator@, drawn, nonce);
            drawn = drawn.push(nonce);
        }
        match outcome {
            TrialOutcome::Found { candidate, digest } => {
                let found = BatchOutcome::Found { candidate, digest };
                assert(batch_result(snapshot@, evaluator@, drawn) == found@);
                return found;
            },
            _ => {},
        }
        tried += 1;
    }
    assert(batch_result(snapshot@, evaluator@, drawn) == BatchOutcome::Exhausted@);
    BatchOutcome::Exhausted
}

} // verus!
