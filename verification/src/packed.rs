//! Two 32-bit counters held in one 64-bit word: the total in the low half,
//! the flagged ("spam") count in the high half.

use vstd::prelude::*;

verus! {

/// The value of one half of the word: 2^32.
pub open spec fn half() -> nat {
    0x1_0000_0000nat
}

/// The flagged count held by a packed word (its high 32 bits).
pub open spec fn spam_of(w: u64) -> nat {
    (w as nat) / half()
}

/// The total count held by a packed word (its low 32 bits).
pub open spec fn total_of(w: u64) -> nat {
    (w as nat) % half()
}

/// The word that holds `spam` in its high half and `total` in its low half.
pub open spec fn word_of(spam: nat, total: nat) -> nat {
    spam * half() + total
}

/// Packs the two counters into one word.
pub fn pack(spam: u32, total: u32) -> (w: u64)
    ensures
        w == word_of(spam as nat, total as nat),
{
    let w = ((spam as u64) << 32u64) | (total as u64);
    assert(((spam as u64) << 32u64) | (total as u64) == (spam as u64) * 0x1_0000_0000u64 + (total as u64))
        by (bit_vector);
    w
}

/// The total count held by a packed word.
pub fn unpack_total(w: u64) -> (total: u32)
    ensures
        total == total_of(w),
{
    assert(w & 0xFFFF_FFFFu64 == w % 0x1_0000_0000u64) by (bit_vector);
    assert(w & 0xFFFF_FFFFu64 <= 0xFFFF_FFFFu64) by (bit_vector);
    (w & 0xFFFF_FFFFu64) as u32
}

/// The flagged count held by a packed word.
pub fn unpack_spam(w: u64) -> (spam: u32)
    ensures
        spam == spam_of(w),
{
    assert(w >> 32u64 == w / 0x1_0000_0000u64) by (bit_vector);
    assert(w >> 32u64 <= 0xFFFF_FFFFu64) by (bit_vector);
    (w >> 32u64) as u32
}

/// How much one increment adds to the flagged count.
pub open spec fn bump(flagged: bool) -> nat {
    if flagged {
        1
    } else {
        0
    }
}

/// Whether one increment of `w` fits: neither half would pass `u32::MAX`.
pub open spec fn can_step(w: u64, flagged: bool) -> bool {
    &&& total_of(w) + 1 < half()
    &&& spam_of(w) + bump(flagged) < half()
}

/// The word after one increment: the total goes up by one, and the flagged
/// count goes up by one when the increment is flagged.
pub open spec fn stepped(w: u64, flagged: bool) -> nat {
    word_of(spam_of(w) + bump(flagged), total_of(w) + 1)
}

/// Unpacking a packed pair gives the pair back.
pub proof fn lemma_unpack_of_pack(spam: nat, total: nat)
    requires
        spam < half(),
        total < half(),
    ensures
        word_of(spam, total) <= u64::MAX,
        spam_of(word_of(spam, total) as u64) == spam,
        total_of(word_of(spam, total) as u64) == total,
{
    assert(spam * half() <= (half() - 1) * half()) by (nonlinear_arith)
        requires
            spam < half(),
    ;
    let w = word_of(spam, total);
    vstd::arithmetic::div_mod::lemma_fundamental_div_mod_converse(
        w as int,
        half() as int,
        spam as int,
        total as int,
    );
}

/// Packing the two halves of a word gives the word back.
pub proof fn lemma_pack_of_unpack(w: u64)
    ensures
        spam_of(w) < half(),
        total_of(w) < half(),
        word_of(spam_of(w), total_of(w)) == w,
{
    vstd::arithmetic::div_mod::lemma_fundamental_div_mod(w as int, half() as int);
    assert(spam_of(w) < half()) by (nonlinear_arith)
        requires
            spam_of(w) == (w as nat) / half(),
            w <= u64::MAX,
            half() == 0x1_0000_0000nat,
    ;
    assert(spam_of(w) * half() == half() * spam_of(w)) by (nonlinear_arith);
}

/// A word is determined by its two counters.
pub proof fn lemma_word_determined_by_counts(a: u64, b: u64)
    requires
        spam_of(a) == spam_of(b),
        total_of(a) == total_of(b),
    ensures
        a == b,
{
    lemma_pack_of_unpack(a);
    lemma_pack_of_unpack(b);
}

/// One increment of the packed word, as the compare-and-swap loop proposes it:
/// the total goes up by one, the flagged count too when `flagged`.
pub fn next_word(current: u64, flagged: bool) -> (target: u64)
    requires
        can_step(current, flagged),
    ensures
        target == stepped(current, flagged),
        total_of(target) == total_of(current) + 1,
        spam_of(target) == spam_of(current) + bump(flagged),
{
    let total = unpack_total(current);
    let spam = unpack_spam(current);
    let new_total = total + 1;
    let new_spam = if flagged {
        spam + 1
    } else {
        spam
    };
    let target = pack(new_spam, new_total);
    proof {
        lemma_unpack_of_pack(new_spam as nat, new_total as nat);
    }
    target
}

/// An increment never lets the flagged count pass the total: from a word whose
/// flagged count is at most its total, the next word is such a word too.
pub proof fn lemma_step_keeps_spam_within_total(w: u64, flagged: bool)
    requires
        can_step(w, flagged),
        spam_of(w) <= total_of(w),
    ensures
        stepped(w, flagged) <= u64::MAX,
        spam_of(stepped(w, flagged) as u64) <= total_of(stepped(w, flagged) as u64),
{
    lemma_unpack_of_pack(spam_of(w) + bump(flagged), total_of(w) + 1);
}

/// Two increments give the same word in either order.
pub proof fn lemma_steps_commute(w: u64, a: bool, b: bool)
    requires
        total_of(w) + 2 < half(),
        spam_of(w) + bump(a) + bump(b) < half(),
    ensures
        stepped(w, a) <= u64::MAX,
        stepped(w, b) <= u64::MAX,
        can_step(stepped(w, a) as u64, b),
        can_step(stepped(w, b) as u64, a),
        stepped(stepped(w, a) as u64, b) == stepped(stepped(w, b) as u64, a),
{
    lemma_unpack_of_pack(spam_of(w) + bump(a), total_of(w) + 1);
    lemma_unpack_of_pack(spam_of(w) + bump(b), total_of(w) + 1);
}

} // verus!
