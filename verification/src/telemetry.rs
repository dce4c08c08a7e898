//! The hash attempt counter: workers add their batches, the reporter drains.
//!
//! Each operation is meant to run as one critical section of the lock that
//! guards the counter.

use vstd::prelude::*;

verus! {

/// The attempts recorded since the last drain.
#[derive(Clone, Copy, Debug)]
pub struct HashAttemptCounter {
    count: u64,
}

impl View for HashAttemptCounter {
    type V = nat;

    closed spec fn view(&self) -> nat {
        self.count as nat
    }
}

/// The counter after `attempts` have been offered to it: the sum where it
/// fits in 64 bits, the old count where it does not.
pub open spec fn recorded(count: nat, attempts: u64) -> nat {
    if count + attempts <= u64::MAX {
        (count + attempts) as nat
    } else {
        count
    }
}

impl HashAttemptCounter {
    pub fn new() -> (counter: HashAttemptCounter)
        ensures
            counter@ == 0,
    {
        HashAttemptCounter { count: 0 }
    }

    /// The attempts recorded since the last drain.
    pub fn count(&self) -> (count: u64)
        ensures
            count == self@,
    {
        self.count
    }

    /// Adds the attempts of one batch. The sum is kept whole: where it would
    /// not fit in 64 bits the counter stays as it was and the call says so.
    pub fn record(&mut self, attempts: u64) -> (recorded: bool)
        ensures
            recorded == (old(self)@ + attempts <= u64::MAX),
            final(self)@ == self::recorded(old(self)@, attempts),
    {
        if attempts <= u64::MAX - self.count {
            self.count = self.count + attempts;
            true
        } else {
            false
        }
    }

    /// Reads the counter and sets it to zero in one step.
    pub fn drain(&mut self) -> (drained: u64)
        ensures
            drained == old(self)@,
            final(self)@ == 0,
    {
        let drained: u64 = self.count;
        self.count = 0;
        drained
    }
}

} // verus!
