//! Verified decision logic of a contention benchmark that compares locks,
//! plain atomics and a bit-packed compare-and-swap counter.

pub mod config;
pub mod packed;
pub mod schedule;
pub mod worker;
pub mod summary;
pub mod hint;
pub mod warmup;
