use vstd::prelude::*;

verus! {

/// Number of increments shared out among the worker threads.
pub const TOTAL_INCREMENTS: u64 = 10_000_000;

/// Number of worker threads in each contended run.
pub const THREAD_COUNT: usize = 8;

/// Number of iterations of the warm-up loop.
pub const WARMUP_ITERATIONS: u64 = 1_000_000;

} // verus!
