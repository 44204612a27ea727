//! A dead-simple permission flag library.
//!
//! A `usize` value (the permission word) holds one boolean flag per bit,
//! counted from the least-significant bit. Three pure functions operate on
//! such a word: `add` turns a flag on, `rm` turns it off, and `check` reads
//! it. Every operation returns a new word; nothing is mutated, so the
//! functions are safe to call from any number of threads.
//!
//! A flag index must be smaller than the width of the word (`usize::BITS`);
//! wider shifts are not defined, so each function requires the bound.

use vstd::prelude::*;

verus! {

/// True iff bit `n` of the permission word `perm` is 1.
pub open spec fn has_flag(perm: usize, n: usize) -> bool {
    (perm >> n) & 1usize == 1usize
}

/// The permission word `perm` with bit `n` forced to 1.
pub open spec fn with_flag(perm: usize, n: usize) -> usize {
    perm | (1usize << n)
}

/// The permission word `perm` with bit `n` forced to 0.
pub open spec fn without_flag(perm: usize, n: usize) -> usize {
    perm & !(1usize << n)
}

/// A flag that was just added reads back as present.
pub proof fn lemma_added_flag_checks(perm: usize, n: usize)
    by (bit_vector)
    requires
        n < usize::BITS,
    ensures
        has_flag(with_flag(perm, n), n),
{
}

/// A flag that was just removed reads back as absent.
pub proof fn lemma_removed_flag_checks_false(perm: usize, n: usize)
    by (bit_vector)
    requires
        n < usize::BITS,
    ensures
        !has_flag(without_flag(perm, n), n),
{
}

/// Adding one flag never affects another: every bit other than `n` keeps
/// its value.
pub proof fn lemma_add_leaves_others(perm: usize, n: usize, i: usize)
    by (bit_vector)
    requires
        n < usize::BITS,
        i < usize::BITS,
        i != n,
    ensures
        has_flag(with_flag(perm, n), i) == has_flag(perm, i),
{
}

/// Removing one flag never affects another: every bit other than `n` keeps
/// its value.
pub proof fn lemma_rm_leaves_others(perm: usize, n: usize, i: usize)
    by (bit_vector)
    requires
        n < usize::BITS,
        i < usize::BITS,
        i != n,
    ensures
        has_flag(without_flag(perm, n), i) == has_flag(perm, i),
{
}

/// Adding a flag is idempotent: adding it a second time changes nothing.
pub proof fn lemma_add_idempotent(perm: usize, n: usize)
    by (bit_vector)
    requires
        n < usize::BITS,
    ensures
        with_flag(with_flag(perm, n), n) == with_flag(perm, n),
{
}

/// Removing a flag is idempotent: removing it a second time changes nothing.
pub proof fn lemma_rm_idempotent(perm: usize, n: usize)
    by (bit_vector)
    requires
        n < usize::BITS,
    ensures
        without_flag(without_flag(perm, n), n) == without_flag(perm, n),
{
}

/// Round trip: removing a flag and then adding it gives the same word as
/// adding it to the original, whatever the flag's starting state was.
pub proof fn lemma_add_after_rm(perm: usize, n: usize)
    by (bit_vector)
    requires
        n < usize::BITS,
    ensures
        with_flag(without_flag(perm, n), n) == with_flag(perm, n),
{
}

/// Add the permission flag `n` to the permission word `perm`.
///
/// The result is `perm` with bit `n` forced to 1; all other bits are
/// unchanged.
pub fn add(perm: usize, n: usize) -> (r: usize)
    requires
        n < usize::BITS,
    ensures
        r == with_flag(perm, n),
        has_flag(r, n),
        forall|i: usize| i < usize::BITS && i != n ==> has_flag(r, i) == has_flag(perm, i),
{
    let r = perm | (1usize << n);
    proof {
        lemma_added_flag_checks(perm, n);
        assert forall|i: usize| i < usize::BITS && i != n implies has_flag(r, i) == has_flag(
            perm,
            i,
        ) by {
            lemma_add_leaves_others(perm, n, i);
        }
    }
    r
}

/// Remove the permission flag `n` from the permission word `perm`.
///
/// The result is `perm` with bit `n` forced to 0; all other bits are
/// unchanged.
pub fn rm(perm: usize, n: usize) -> (r: usize)
    requires
        n < usize::BITS,
    ensures
        r == without_flag(perm, n),
        !has_flag(r, n),
        forall|i: usize| i < usize::BITS && i != n ==> has_flag(r, i) == has_flag(perm, i),
{
    let r = perm & !(1usize << n);
    proof {
        lemma_removed_flag_checks_false(perm, n);
        assert forall|i: usize| i < usize::BITS && i != n implies has_flag(r, i) == has_flag(
            perm,
            i,
        ) by {
            lemma_rm_leaves_others(perm, n, i);
        }
    }
    r
}

/// Check whether the permission flag `n` is present in the permission word
/// `perm`: true iff bit `n` of `perm` is 1.
pub fn check(perm: usize, n: usize) -> (r: bool)
    requires
        n < usize::BITS,
    ensures
        r == has_flag(perm, n),
{
    (perm >> n) & 1usize == 1usize
}

} // verus!
