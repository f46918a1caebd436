//! What a whole run of increments leaves in the packed word, for any order in
//! which the same increments are applied as steps. That the successful
//! compare-and-swap operations of the threads form such a sequence of steps
//! rests on the atomics, which the caller performs; it is not proved here.

use vstd::prelude::*;
use crate::packed::{bump, half, lemma_unpack_of_pack, spam_of, stepped, total_of, word_of};

verus! {

/// Number of flagged increments in a sequence of increments.
pub open spec fn count_flagged(flags: Seq<bool>) -> nat
    decreases flags.len(),
{
    if flags.len() == 0 {
        0
    } else {
        count_flagged(flags.drop_last()) + bump(flags.last())
    }
}

/// The word after applying the increments in `flags`, in order, to `w`.
pub open spec fn run(w: u64, flags: Seq<bool>) -> nat
    decreases flags.len(),
{
    if flags.len() == 0 {
        w as nat
    } else {
        stepped(run(w, flags.drop_last()) as u64, flags.last())
    }
}

/// Starting from zero, a run of fewer than 2^32 increments leaves the number of
/// increments in the total and the number of flagged ones in the flagged count.
pub proof fn lemma_run_from_zero(flags: Seq<bool>)
    requires
        flags.len() < half(),
    ensures
        count_flagged(flags) <= flags.len(),
        run(0, flags) == word_of(count_flagged(flags), flags.len()),
        run(0, flags) <= u64::MAX,
        spam_of(run(0, flags) as u64) == count_flagged(flags),
        total_of(run(0, flags) as u64) == flags.len(),
    decreases flags.len(),
{
    if flags.len() == 0 {
        lemma_unpack_of_pack(0, 0);
    } else {
        let prefix = flags.drop_last();
        lemma_run_from_zero(prefix);
        lemma_unpack_of_pack(count_flagged(flags), flags.len());
    }
}

/// The number of flagged increments is the multiplicity of `true`.
pub proof fn lemma_count_flagged_is_multiplicity(flags: Seq<bool>)
    ensures
        count_flagged(flags) == flags.to_multiset().count(true),
    decreases flags.len(),
{
    broadcast use vstd::seq_lib::group_to_multiset_ensures;

    if flags.len() == 0 {
        assert(flags.to_multiset() =~= vstd::multiset::Multiset::empty());
    } else {
        let prefix = flags.drop_last();
        lemma_count_flagged_is_multiplicity(prefix);
        assert(flags =~= prefix.push(flags.last()));
    }
}

/// Any two orders of the same increments end in the same word: two runs from
/// zero whose increments, applied as steps, are the same multiset give equal
/// words.
pub proof fn lemma_orders_agree(a: Seq<bool>, b: Seq<bool>)
    requires
        a.to_multiset() =~= b.to_multiset(),
        a.len() < half(),
    ensures
        run(0, a) == run(0, b),
{
    broadcast use vstd::seq_lib::group_to_multiset_ensures;

    assert(a.len() == a.to_multiset().len());
    assert(b.len() == b.to_multiset().len());
    lemma_count_flagged_is_multiplicity(a);
    lemma_count_flagged_is_multiplicity(b);
    lemma_run_from_zero(a);
    lemma_run_from_zero(b);
}

} // verus!
