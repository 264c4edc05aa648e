//! Decimal positions of a natural number.

use vstd::prelude::*;
use vstd::arithmetic::div_mod::{lemma_div_denominator, lemma_mod_breakdown};

verus! {

/// Ten to the power `n`.
pub open spec fn pow10(n: nat) -> nat
    decreases n,
{
    if n == 0 {
        1
    } else {
        10 * pow10((n - 1) as nat)
    }
}

/// The decimal digit of `x` at position `i`, position 0 being the least
/// significant. Positions beyond the number's length hold 0.
pub open spec fn digit_at(x: nat, i: nat) -> nat {
    (x / pow10(i)) % 10
}

/// A power of ten is never zero.
pub proof fn lemma_pow10_positive(n: nat)
    ensures
        pow10(n) > 0,
    decreases n,
{
    if n > 0 {
        lemma_pow10_positive((n - 1) as nat);
    }
}

/// Dividing by ten once more moves one position up.
pub proof fn lemma_shift(x: nat, i: nat)
    ensures
        (x / pow10(i)) / 10 == x / pow10(i + 1),
{
    lemma_pow10_positive(i);
    lemma_div_denominator(x as int, pow10(i) as int, 10);
    assert(pow10(i) * 10 == pow10(i + 1));
}

/// The digits above the lowest are the digits of the number divided by ten.
pub proof fn lemma_digit_at_tail(x: nat, i: nat)
    ensures
        digit_at(x, i + 1) == digit_at(x / 10, i),
{
    lemma_pow10_positive(i);
    lemma_div_denominator(x as int, 10, pow10(i) as int);
    assert(10 * pow10(i) == pow10(i + 1));
}

/// The lowest `n + 1` digits of a number are its last digit and, above it,
/// the lowest `n` digits of the number divided by ten.
pub proof fn lemma_low_digits_split(x: nat, n: nat)
    ensures
        x % pow10(n + 1) == x % 10 + 10 * ((x / 10) % pow10(n)),
{
    lemma_pow10_positive(n);
    lemma_mod_breakdown(x as int, 10, pow10(n) as int);
    assert(10 * pow10(n) == pow10(n + 1));
}

} // verus!
