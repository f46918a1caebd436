//! The warm-up loop run before the measured variants.

use vstd::prelude::*;
use crate::config::WARMUP_ITERATIONS;
use crate::hint::{black_box_u64, BlackBoxed};

verus! {

/// The arguments of a sequence of `black_box` calls, in order.
pub open spec fn args(calls: Seq<BlackBoxed>) -> Seq<u64> {
    calls.map_values(|b: BlackBoxed| b.arg())
}

/// `obs` is exactly the sequence 1, 2, ..., `n`.
pub open spec fn counts_up_to(obs: Seq<u64>, n: nat) -> bool {
    &&& obs.len() == n
    &&& forall|k: int| 0 <= k < obs.len() ==> obs[k] == k + 1
}

/// What a warm-up of `n` steps hands to `black_box`: it starts at 1 (when
/// `n > 0`), ends at `n`, rises by exactly one per call, never repeats a value
/// and never leaves 1..=`n` (so it never wraps to 0).
pub proof fn lemma_count_up_shape(obs: Seq<u64>, n: nat)
    requires
        counts_up_to(obs, n),
    ensures
        n > 0 ==> obs[0] == 1,
        n > 0 ==> obs[n - 1] == n,
        forall|k: int| 0 <= k < n - 1 ==> #[trigger] obs[k + 1] == obs[k] + 1,
        forall|k: int| 0 <= k < n ==> 1 <= #[trigger] obs[k] <= n,
        forall|j: int, k: int| 0 <= j < k < n ==> #[trigger] obs[j] < #[trigger] obs[k],
{
}

/// Two warm-up runs of the same length hand `black_box` the same sequence:
/// nothing carries over from one run to the next.
pub proof fn lemma_warmup_runs_agree(a: Seq<u64>, b: Seq<u64>, n: nat)
    requires
        counts_up_to(a, n),
        counts_up_to(b, n),
    ensures
        a == b,
{
    assert(a =~= b);
}

/// Counts from 1 up to `iterations`, passing each count through `black_box`
/// so that the loop is not optimised away. The result is the record of the
/// `black_box` calls made, in call order: their arguments are exactly
/// 1, 2, ..., `iterations`, with no wrap-around.
pub fn warmup_for(iterations: u64) -> (calls: Ghost<Seq<BlackBoxed>>)
    ensures
        calls@.len() == iterations,
        counts_up_to(args(calls@), iterations as nat),
{
    let mut x: u64 = 0;
    let mut i: u64 = 0;
    let ghost mut seen: Seq<BlackBoxed> = Seq::empty();
    while i < iterations
        invariant
            i <= iterations,
            x == i,
            seen.len() == i,
            forall|k: int| 0 <= k < seen.len() ==> #[trigger] seen[k].arg() == k + 1,
        decreases iterations - i,
    {
        x = x.wrapping_add(1);
        let passed = black_box_u64(x);
        proof {
            seen = seen.push(passed);
        }
        i = i + 1;
    }
    assert(args(seen).len() == seen.len());
    assert forall|k: int| 0 <= k < args(seen).len() implies args(seen)[k] == k + 1 by {
        assert(seen[k].arg() == k + 1);
    }
    Ghost(seen)
}

/// The warm-up run: counts from 1 up to `WARMUP_ITERATIONS` through
/// `black_box`. The result is the record of the `black_box` calls made, in
/// call order: their arguments are exactly 1, 2, ..., `WARMUP_ITERATIONS`.
pub fn warmup() -> (calls: Ghost<Seq<BlackBoxed>>)
    ensures
        calls@.len() == WARMUP_ITERATIONS,
        counts_up_to(args(calls@), WARMUP_ITERATIONS as nat),
{
    warmup_for(WARMUP_ITERATIONS)
}

} // verus!
