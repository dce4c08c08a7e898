//! The hash evaluator: a memory-hard keyed hash with fixed cost parameters.

use crate::target::Digest;
use argon2::{Algorithm, Argon2, Error, Params, Version};
use vstd::prelude::*;

verus! {

/// Which variant of the hash function runs.
#[derive(Clone, Copy, Debug, PartialEq, Eq, Structural)]
pub enum HashAlgorithm {
    Argon2d,
    Argon2i,
    Argon2id,
}

/// Which revision of the hash function runs.
#[derive(Clone, Copy, Debug, PartialEq, Eq, Structural)]
pub enum HashVersion {
    V0x10,
    V0x13,
}

/// Why the evaluator refused a configuration or a buffer.
#[derive(Clone, Copy, Debug, PartialEq, Eq, Structural)]
pub enum HashError {
    /// The memory cost is under the minimum or under eight blocks per lane.
    MemoryTooLittle,
    /// The time cost is zero.
    TimeTooSmall,
    /// The parallelism is zero.
    ThreadsTooFew,
    /// The parallelism is over the maximum.
    ThreadsTooMany,
    /// The digest would be shorter than the minimum.
    OutputTooShort,
    /// The digest would be longer than the maximum.
    OutputTooLong,
    /// The buffer is longer than the maximum.
    InputTooLong,
    /// The salt is shorter than the minimum.
    SaltTooShort,
    /// The salt is longer than the maximum.
    SaltTooLong,
    /// A refusal of the hash function that none of the rules above explains.
    /// No function of this module returns it.
    Other,
}

impl HashError {
    /// Whether the error comes from the cost parameters, so that no buffer
    /// could ever be hashed under them.
    pub open spec fn is_configuration(self) -> bool {
        self is MemoryTooLittle || self is TimeTooSmall || self is ThreadsTooFew
            || self is ThreadsTooMany || self is OutputTooShort || self is OutputTooLong
    }

    /// Whether the error comes from the cost parameters.
    pub fn configuration(&self) -> (yes: bool)
        ensures
            yes == self.is_configuration(),
    {
        match self {
            HashError::MemoryTooLittle
            | HashError::TimeTooSmall
            | HashError::ThreadsTooFew
            | HashError::ThreadsTooMany
            | HashError::OutputTooShort
            | HashError::OutputTooLong => true,
            _ => false,
        }
    }
}

/// Smallest memory cost, in blocks of one kibibyte.
pub const MIN_MEMORY_COST: u32 = 8;

/// Memory blocks that every lane needs.
pub const BLOCKS_PER_LANE: u32 = 8;

/// Largest degree of parallelism.
pub const MAX_PARALLELISM: u32 = 0xFF_FFFF;

/// Shortest digest, in bytes.
pub const MIN_OUTPUT_LENGTH: usize = 4;

/// Longest digest, buffer or salt, in bytes.
pub const MAX_LENGTH: usize = 0xFFFF_FFFF;

/// Shortest salt, in bytes.
pub const MIN_SALT_LENGTH: usize = 8;

/// The verdict on a set of cost parameters: the first rule that they break.
pub open spec fn cost_verdict(
    memory_cost: u32,
    time_cost: u32,
    parallelism: u32,
    output_length: usize,
) -> Result<(), HashError> {
    if memory_cost < MIN_MEMORY_COST || memory_cost < parallelism * BLOCKS_PER_LANE {
        Err(HashError::MemoryTooLittle)
    } else if time_cost < 1 {
        Err(HashError::TimeTooSmall)
    } else if parallelism < 1 {
        Err(HashError::ThreadsTooFew)
    } else if parallelism > MAX_PARALLELISM {
        Err(HashError::ThreadsTooMany)
    } else if output_length < MIN_OUTPUT_LENGTH {
        Err(HashError::OutputTooShort)
    } else if output_length > MAX_LENGTH {
        Err(HashError::OutputTooLong)
    } else {
        Ok(())
    }
}

/// Checks cost parameters.
///
/// Trusted: calls `argon2::Params::new`, which tests its arguments in the
/// order of `cost_verdict` and names the first bound that fails. The call
/// multiplies the parallelism by eight in `u32`, so larger values stay out.
#[verifier::external_body]
fn check_costs(memory_cost: u32, time_cost: u32, parallelism: u32, output_length: usize) -> (verdict:
    Result<(), HashError>)
    requires
        parallelism * BLOCKS_PER_LANE <= u32::MAX,
    ensures
        verdict == cost_verdict(memory_cost, time_cost, parallelism, output_length),
{
    match Params::new(memory_cost, time_cost, parallelism, Some(output_length)) {
        Ok(_) => Ok(()),
        Err(Error::MemoryTooLittle) => Err(HashError::MemoryTooLittle),
        Err(Error::TimeTooSmall) => Err(HashError::TimeTooSmall),
        Err(Error::ThreadsTooFew) => Err(HashError::ThreadsTooFew),
        Err(Error::ThreadsTooMany) => Err(HashError::ThreadsTooMany),
        Err(Error::OutputTooShort) => Err(HashError::OutputTooShort),
        Err(Error::OutputTooLong) => Err(HashError::OutputTooLong),
        Err(_) => Err(HashError::Other),
    }
}

/// The fixed configuration of the evaluator, the same for every worker.
#[derive(Debug)]
pub struct HashConfig {
    pub memory_cost: u32,
    pub time_cost: u32,
    pub parallelism: u32,
    pub output_length: usize,
    pub algorithm: HashAlgorithm,
    pub version: HashVersion,
    pub salt: Vec<u8>,
}

/// A configuration as plain values.
pub struct HashConfigView {
    pub memory_cost: u32,
    pub time_cost: u32,
    pub parallelism: u32,
    pub output_length: usize,
    pub algorithm: HashAlgorithm,
    pub version: HashVersion,
    pub salt: Seq<u8>,
}

impl View for HashConfig {
    type V = HashConfigView;

    open spec fn view(&self) -> HashConfigView {
        HashConfigView {
            memory_cost: self.memory_cost,
            time_cost: self.time_cost,
            parallelism: self.parallelism,
            output_length: self.output_length,
            algorithm: self.algorithm,
            version: self.version,
            salt: self.salt@,
        }
    }
}

impl Clone for HashConfig {
    fn clone(&self) -> (copy: Self)
        ensures
            copy@ == self@,
    {
        HashConfig {
            memory_cost: self.memory_cost,
            time_cost: self.time_cost,
            parallelism: self.parallelism,
            output_length: self.output_length,
            algorithm: self.algorithm,
            version: self.version,
            salt: self.salt.clone(),
        }
    }
}

impl HashConfigView {
    /// The verdict on the cost parameters of this configuration.
    pub open spec fn verdict(self) -> Result<(), HashError> {
        cost_verdict(self.memory_cost, self.time_cost, self.parallelism, self.output_length)
    }
}

/// The bytes that the hash function yields for a buffer under a
/// configuration. Every call with the same values yields the same bytes.
pub uninterp spec fn keyed_hash(config: HashConfigView, buffer: Seq<u8>) -> Seq<u8>;

/// The first length rule that a buffer or the configured salt breaks, if any.
pub open spec fn length_error(config: HashConfigView, buffer: Seq<u8>) -> Option<HashError> {
    if buffer.len() > MAX_LENGTH {
        Some(HashError::InputTooLong)
    } else if config.salt.len() < MIN_SALT_LENGTH {
        Some(HashError::SaltTooShort)
    } else if config.salt.len() > MAX_LENGTH {
        Some(HashError::SaltTooLong)
    } else {
        None
    }
}

/// What evaluating a buffer under a valid configuration returns: the first
/// length rule that is broken, or else the digest.
pub open spec fn evaluation(config: HashConfigView, buffer: Seq<u8>) -> Result<Seq<u8>, HashError> {
    match length_error(config, buffer) {
        Some(e) => Err(e),
        None => Ok(keyed_hash(config, buffer)),
    }
}

/// Hashes a buffer.
///
/// Trusted: calls `argon2::Argon2::hash_password_into` with the buffer as the
/// password, the configured salt, and an output of the configured length. The
/// crate refuses a password over `MAX_LENGTH` bytes, then a salt under
/// `MIN_SALT_LENGTH` or over `MAX_LENGTH` bytes, and otherwise fills the whole
/// output with bytes that depend on the configuration and the buffer alone.
/// The call allocates `memory_cost` kibibytes; a machine that cannot give
/// them stops the process, which the contract does not cover.
#[verifier::external_body]
fn run_hash(config: &HashConfig, buffer: &[u8]) -> (out: Result<Vec<u8>, HashError>)
    requires
        config@.verdict() is Ok,
    ensures
        out is Ok <==> length_error(config@, buffer@) is None,
        out matches Ok(bytes) ==> bytes@ == keyed_hash(config@, buffer@),
        out matches Ok(bytes) ==> bytes@.len() == config.output_length,
        out matches Err(e) ==> length_error(config@, buffer@) == Some(e),
{
    let algorithm = match config.algorithm {
        HashAlgorithm::Argon2d => Algorithm::Argon2d,
        HashAlgorithm::Argon2i => Algorithm::Argon2i,
        HashAlgorithm::Argon2id => Algorithm::Argon2id,
    };
    let version = match config.version { HashVersion::V0x10 => Version::V0x10, HashVersion::V0x13 => Version::V0x13 };
    let mut out = vec![0u8; config.output_length];
    let costs = Params::new(config.memory_cost, config.time_cost, config.parallelism, Some(config.output_length));
    match costs.and_then(|p| Argon2::new(algorithm, version, p).hash_password_into(buffer, &config.salt, &mut out)) {
        Ok(()) => Ok(out),
        Err(Error::PwdTooLong) => Err(HashError::InputTooLong),
        Err(Error::SaltTooShort) => Err(HashError::SaltTooShort),
        Err(Error::SaltTooLong) => Err(HashError::SaltTooLong),
        Err(_) => Err(HashError::Other),
    }
}

/// A hash evaluator whose cost parameters have been checked.
pub struct HashEvaluator {
    config: HashConfig,
}

impl View for HashEvaluator {
    type V = HashConfigView;

    closed spec fn view(&self) -> HashConfigView {
        self.config@
    }
}

impl HashEvaluator {
    #[verifier::type_invariant]
    spec fn checked(self) -> bool {
        self.config@.verdict() is Ok
    }

    /// Checks the cost parameters of `config` and keeps it: fails exactly
    /// when they break a rule, with the first rule broken.
    pub fn new(config: HashConfig) -> (made: Result<HashEvaluator, HashError>)
        ensures
            made is Ok <==> config@.verdict() is Ok,
            made matches Ok(evaluator) ==> evaluator@ == config@,
            made matches Err(e) ==> config@.verdict() == Err::<(), HashError>(e),
    {
        if config.parallelism > u32::MAX / BLOCKS_PER_LANE {
            return Err(HashError::MemoryTooLittle);
        }
        match check_costs(
            config.memory_cost,
            config.time_cost,
            config.parallelism,
            config.output_length,
        ) {
            Ok(()) => Ok(HashEvaluator { config }),
            Err(e) => Err(e),
        }
    }

    /// The configuration in use; its cost parameters passed the check.
    pub fn config(&self) -> (config: &HashConfig)
        ensures
            config@ == self@,
            self@.verdict() is Ok,
    {
        proof {
            use_type_invariant(self);
        }
        &self.config
    }

    /// The digest of `buffer`: fails exactly when the buffer or the salt
    /// breaks a length rule, and otherwise returns the keyed hash of the
    /// buffer, as long as the configuration says.
    pub fn evaluate(&self, buffer: &[u8]) -> (out: Result<Digest, HashError>)
        ensures
            out is Ok <==> length_error(self@, buffer@) is None,
            out matches Ok(digest) ==> digest@ == keyed_hash(self@, buffer@),
            out matches Ok(digest) ==> digest@.len() == self@.output_length,
            out matches Err(e) ==> length_error(self@, buffer@) == Some(e),
    {
        proof {
            use_type_invariant(self);
        }
        match run_hash(&self.config, buffer) {
            Ok(bytes) => Ok(Digest::from_bytes(bytes)),
            Err(e) => Err(e),
        }
    }
}

} // verus!
