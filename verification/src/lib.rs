//! Core of a parallel proof-of-work miner: trial hashing against shared,
//! periodically replaced work, a recheck of every winning digest against the
//! live target before it is submitted, and attempt counting for telemetry.
//!
//! The crate holds the decisions and the data; threads, locks, the network
//! and the clock belong to the program built around it.

pub mod candidate;
pub mod gate;
pub mod hashing;
pub mod laws;
pub mod refresh;
pub mod search;
pub mod target;
pub mod telemetry;
pub mod work;
pub mod worker;
