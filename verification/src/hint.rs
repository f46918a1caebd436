//! The optimiser barrier used by the warm-up loop, and the record of what was
//! handed to it.

use vstd::prelude::*;

verus! {

/// A value that was handed to `std::hint::black_box`. Its field is private to
/// this module and only `black_box_u64` makes one, so holding one shows that
/// the call was made with that argument.
pub struct BlackBoxed {
    passed: u64,
}

impl BlackBoxed {
    /// The argument that `black_box` was called with.
    pub closed spec fn arg(self) -> u64 {
        self.passed
    }
}

/// Calls `std::hint::black_box` on a `u64`. Its documentation calls it an
/// identity function that only hides the value from the optimiser; the
/// contract claims that it returns its argument unchanged, which the result
/// records together with the fact of the call.
#[verifier::external_body]
pub(crate) fn black_box_u64(x: u64) -> (b: BlackBoxed)
    ensures
        b.arg() == x,
{
    BlackBoxed { passed: std::hint::black_box(x) }
}

} // verus!
