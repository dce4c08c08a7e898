//! Digests and targets as unsigned big-endian numbers.

use num_bigint::BigUint;
use vstd::prelude::*;

verus! {

/// The natural number that a big-endian byte string denotes; the empty string
/// denotes zero and leading zero bytes do not change the value.
pub open spec fn be_value(bytes: Seq<u8>) -> nat
    decreases bytes.len(),
{
    if bytes.len() == 0 {
        0
    } else {
        be_value(bytes.drop_last()) * 256 + bytes.last() as nat
    }
}

/// A zero byte in front of a byte string does not change the number that the
/// string denotes.
pub proof fn law_leading_zero_keeps_the_value(bytes: Seq<u8>)
    ensures
        be_value(seq![0u8] + bytes) == be_value(bytes),
    decreases bytes.len(),
{
    let padded = seq![0u8] + bytes;
    if bytes.len() == 0 {
        assert(padded.drop_last() =~= Seq::<u8>::empty());
        assert(be_value(padded.drop_last()) == 0);
    } else {
        assert(padded.drop_last() =~= seq![0u8] + bytes.drop_last());
        assert(padded.last() == bytes.last());
        law_leading_zero_keeps_the_value(bytes.drop_last());
    }
}

/// Compares two big-endian byte strings as numbers.
///
/// Trusted: builds both numbers with `num_bigint::BigUint::from_bytes_be` and
/// compares them with `<=`. The crate documents `from_bytes_be` as reading the
/// bytes in big-endian order and orders `BigUint` by magnitude.
#[verifier::external_body]
fn be_bytes_le(left: &[u8], right: &[u8]) -> (le: bool)
    ensures
        le == (be_value(left@) <= be_value(right@)),
{
    BigUint::from_bytes_be(left) <= BigUint::from_bytes_be(right)
}

/// The output of the hash evaluator for one trial, most significant byte first.
#[derive(Debug, PartialEq, Eq)]
pub struct Digest {
    pub bytes: Vec<u8>,
}

impl View for Digest {
    type V = Seq<u8>;

    open spec fn view(&self) -> Seq<u8> {
        self.bytes@
    }
}

impl Clone for Digest {
    fn clone(&self) -> (copy: Self)
        ensures
            copy@ == self@,
    {
        Digest { bytes: self.bytes.clone() }
    }
}

impl Digest {
    /// The digest read as a number.
    pub open spec fn value(&self) -> nat {
        be_value(self.bytes@)
    }

    pub fn from_bytes(bytes: Vec<u8>) -> (digest: Digest)
        ensures
            digest@ == bytes@,
    {
        Digest { bytes }
    }

    /// Whether this digest qualifies under `target`: it does exactly when its
    /// value does not exceed the target.
    pub fn meets(&self, target: &Target) -> (ok: bool)
        ensures
            ok == (self.value() <= target@),
    {
        be_bytes_le(self.bytes.as_slice(), target.bytes.as_slice())
    }
}

/// The largest digest value that still qualifies. A lower target is harder.
#[derive(Debug, PartialEq, Eq)]
pub struct Target {
    pub bytes: Vec<u8>,
}

impl View for Target {
    type V = nat;

    open spec fn view(&self) -> nat {
        be_value(self.bytes@)
    }
}

impl Clone for Target {
    fn clone(&self) -> (copy: Self)
        ensures
            copy.bytes@ == self.bytes@,
            copy@ == self@,
    {
        Target { bytes: self.bytes.clone() }
    }
}

impl Target {
    /// The target that only an all-zero digest meets.
    pub fn zero() -> (target: Target)
        ensures
            target@ == 0,
            target.bytes@.len() == 0,
    {
        Target { bytes: Vec::new() }
    }

    pub fn from_be_bytes(bytes: Vec<u8>) -> (target: Target)
        ensures
            target.bytes@ == bytes@,
            target@ == be_value(bytes@),
    {
        Target { bytes }
    }
}

} // verus!
