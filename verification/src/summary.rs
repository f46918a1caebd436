//! The results summary: which strategy was fastest, and the clamped
//! microsecond counts that the speed-up ratios divide by.

use vstd::prelude::*;

verus! {

/// The five synchronisation strategies that the benchmark compares.
#[derive(Clone, Copy, Debug, PartialEq, Eq, Structural)]
pub enum Strategy {
    Mutex,
    RwLock,
    Spinlock,
    LockFree,
    BitPacked,
}

/// The measured time of each strategy, in nanoseconds.
#[derive(Clone, Copy, Debug, PartialEq, Eq, Structural)]
pub struct Timings {
    pub mutex: u128,
    pub rwlock: u128,
    pub spinlock: u128,
    pub lock_free: u128,
    pub bit_packed: u128,
}

impl Timings {
    /// The measured time of strategy `s`.
    pub open spec fn time_of(self, s: Strategy) -> u128 {
        match s {
            Strategy::Mutex => self.mutex,
            Strategy::RwLock => self.rwlock,
            Strategy::Spinlock => self.spinlock,
            Strategy::LockFree => self.lock_free,
            Strategy::BitPacked => self.bit_packed,
        }
    }
}

/// The order in which equally fast strategies are preferred (lower first).
pub open spec fn preference(s: Strategy) -> nat {
    match s {
        Strategy::LockFree => 0,
        Strategy::BitPacked => 1,
        Strategy::Spinlock => 2,
        Strategy::RwLock => 3,
        Strategy::Mutex => 4,
    }
}

/// The least of two times.
pub open spec fn min2(a: u128, b: u128) -> u128 {
    if a <= b {
        a
    } else {
        b
    }
}

/// The least of the five measured times.
pub open spec fn least_time(t: Timings) -> u128 {
    min2(min2(min2(min2(t.lock_free, t.bit_packed), t.spinlock), t.rwlock), t.mutex)
}

/// The first strategy, in order of preference, whose time is the least.
pub open spec fn fastest_of(t: Timings) -> Strategy {
    let m = least_time(t);
    if t.lock_free == m {
        Strategy::LockFree
    } else if t.bit_packed == m {
        Strategy::BitPacked
    } else if t.spinlock == m {
        Strategy::Spinlock
    } else if t.rwlock == m {
        Strategy::RwLock
    } else {
        Strategy::Mutex
    }
}

/// The fastest strategy: one whose time is the least of the five, and among
/// those of least time the first of lock-free, bit-packed, spinlock, RwLock,
/// Mutex.
pub fn fastest(t: &Timings) -> (s: Strategy)
    ensures
        s == fastest_of(*t),
        forall|o: Strategy| t.time_of(s) <= #[trigger] t.time_of(o),
        forall|o: Strategy| preference(o) < preference(s) ==> t.time_of(s) < #[trigger] t.time_of(o),
{
    let mut least = t.lock_free;
    if t.bit_packed < least {
        least = t.bit_packed;
    }
    if t.spinlock < least {
        least = t.spinlock;
    }
    if t.mutex < least {
        least = t.mutex;
    }
    if t.rwlock < least {
        least = t.rwlock;
    }
    let s = if t.lock_free == least {
        Strategy::LockFree
    } else if t.bit_packed == least {
        Strategy::BitPacked
    } else if t.spinlock == least {
        Strategy::Spinlock
    } else if t.rwlock == least {
        Strategy::RwLock
    } else {
        Strategy::Mutex
    };
    assert forall|o: Strategy| t.time_of(s) <= #[trigger] t.time_of(o) by {
        match o {
            Strategy::Mutex => {},
            Strategy::RwLock => {},
            Strategy::Spinlock => {},
            Strategy::LockFree => {},
            Strategy::BitPacked => {},
        }
    }
    assert forall|o: Strategy| preference(o) < preference(s) implies t.time_of(s) < #[trigger] t.time_of(o) by {
        match o {
            Strategy::Mutex => {},
            Strategy::RwLock => {},
            Strategy::Spinlock => {},
            Strategy::LockFree => {},
            Strategy::BitPacked => {},
        }
    }
    s
}

/// A measured time in microseconds, raised to one when it is zero so that it
/// can divide.
pub fn nonzero_micros(micros: u128) -> (m: u128)
    ensures
        m == (if micros == 0 { 1 } else { micros }),
        m >= 1,
{
    if micros == 0 {
        1
    } else {
        micros
    }
}

} // verus!
