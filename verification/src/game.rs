//! Three-way comparison of a guess against the session's target value.

use vstd::prelude::*;

verus! {

/// Outcome of comparing one guess against the target value.
#[derive(Clone, Copy, Debug, PartialEq, Eq, Structural)]
pub enum Comparison {
    Less,
    Greater,
    Equal,
}

/// The unique outcome of comparing `guess` against `target`.
pub open spec fn compare_spec(guess: u32, target: u32) -> Comparison {
    if guess < target {
        Comparison::Less
    } else if guess > target {
        Comparison::Greater
    } else {
        Comparison::Equal
    }
}

/// Three-way comparison: `Less`, `Greater` or `Equal`, never anything else.
pub fn compare_guess(guess: u32, target: u32) -> (r: Comparison)
    ensures
        r == compare_spec(guess, target),
{
    if guess < target {
        Comparison::Less
    } else if guess > target {
        Comparison::Greater
    } else {
        Comparison::Equal
    }
}

/// The comparison is total: for every pair exactly one of the three
/// outcomes holds, characterised by the order of the two numbers.
pub proof fn lemma_compare_trichotomy(guess: u32, target: u32)
    ensures
        compare_spec(guess, target) == Comparison::Less <==> guess < target,
        compare_spec(guess, target) == Comparison::Greater <==> guess > target,
        compare_spec(guess, target) == Comparison::Equal <==> guess == target,
{
}

/// The comparison is deterministic: any two results obtained for the
/// same pair of numbers are the same result.
pub proof fn lemma_compare_deterministic(guess: u32, target: u32, r1: Comparison, r2: Comparison)
    requires
        r1 == compare_spec(guess, target),
        r2 == compare_spec(guess, target),
    ensures
        r1 == r2,
{
}

} // verus!
