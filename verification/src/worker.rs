//! The per-thread side of the bit-packed counter: how the increments are
//! shared out, which threads flag theirs, and the decisions of one thread's
//! compare-and-swap loop. The caller performs the atomic load and
//! compare-and-swap and reports each outcome back.

use vstd::prelude::*;
use crate::packed::{can_step, next_word, stepped};

verus! {

/// The share of `total` increments that each of `threads` threads performs
/// (the remainder of the division is not performed by anyone).
pub fn increments_per_thread(total: u64, threads: usize) -> (n: u64)
    requires
        threads > 0,
    ensures
        n == (total as nat) / (threads as nat),
{
    total / (threads as u64)
}

/// Threads with an even index flag every increment they make.
pub fn is_security_thread(thread_id: usize) -> (flagged: bool)
    ensures
        flagged == (thread_id % 2 == 0),
{
    thread_id % 2 == 0
}

/// The state of one thread's compare-and-swap loop.
pub struct CasWorker {
    /// Whether this thread's increments also count as flagged.
    pub flagged: bool,
    /// Increments still to be stored.
    pub remaining: u64,
    /// Compare-and-swap attempts that failed so far.
    pub retries: u64,
}

impl CasWorker {
    /// The loop state of thread `thread_id`, with `increments` increments to make.
    pub fn new(thread_id: usize, increments: u64) -> (w: CasWorker)
        ensures
            w.flagged == (thread_id % 2 == 0),
            w.remaining == increments,
            w.retries == 0,
    {
        CasWorker { flagged: is_security_thread(thread_id), remaining: increments, retries: 0 }
    }

    /// Whether every increment of this thread has been stored.
    pub fn is_done(&self) -> (done: bool)
        ensures
            done == (self.remaining == 0),
    {
        self.remaining == 0
    }

    /// The word this thread tries to store in place of `current`, the word it
    /// just loaded.
    pub fn proposal(&self, current: u64) -> (target: u64)
        requires
            can_step(current, self.flagged),
        ensures
            target == stepped(current, self.flagged),
    {
        next_word(current, self.flagged)
    }

    /// Records the outcome of one compare-and-swap: a stored increment leaves
    /// one fewer to make, a failed attempt counts as one more retry.
    pub fn record_attempt(&mut self, stored: bool)
        requires
            old(self).remaining > 0,
            !stored ==> old(self).retries < u64::MAX,
        ensures
            final(self).flagged == old(self).flagged,
            stored ==> final(self).remaining == old(self).remaining - 1,
            stored ==> final(self).retries == old(self).retries,
            !stored ==> final(self).remaining == old(self).remaining,
            !stored ==> final(self).retries == old(self).retries + 1,
    {
        if stored {
            self.remaining = self.remaining - 1;
        } else {
            self.retries = self.retries + 1;
        }
    }
}

} // verus!
