//! Base-64 positional notation, least significant digit first.
//!
//! A value is read six bits at a time. Digit `i` carries the bits
//! `[6 * i, 6 * i + 6)` of the value, so a `u64` has eleven digits that can
//! be non-zero, and the eleventh holds only its topmost four bits.

use vstd::arithmetic::div_mod::lemma_breakdown;
use vstd::arithmetic::power::lemma_pow0;
use vstd::arithmetic::power::lemma_pow_positive;
use vstd::arithmetic::power::pow;
use vstd::prelude::*;

verus! {

/// Digit `i` of `value` in base 64, counting from the least significant.
pub open spec fn digit(value: nat, i: nat) -> nat
    decreases i,
{
    if i == 0 {
        value % 64
    } else {
        digit(value / 64, (i - 1) as nat)
    }
}

/// Whether `a` and `b` have the same digits at all positions below `width`.
pub open spec fn same_digits(a: nat, b: nat, width: nat) -> bool {
    forall|i: nat| i < width ==> #[trigger] digit(a, i) == digit(b, i)
}

/// Every digit is below 64.
pub proof fn lemma_digit_bound(value: nat, i: nat)
    ensures
        digit(value, i) < 64,
    decreases i,
{
    if i > 0 {
        lemma_digit_bound(value / 64, (i - 1) as nat);
    }
}

/// Digit `i` of a `u64` is what shifting right by `6 * i` and masking with
/// `0x3F` leaves, for each of its eleven digits.
pub proof fn lemma_digit_is_shift_mask(value: u64, i: nat)
    requires
        i <= 10,
    ensures
        digit(value as nat, i) == (value >> ((6 * i) as u64)) & 0x3F,
    decreases i,
{
    let shift = (6 * i) as u64;
    if i == 0 {
        assert(value % 64 == (value >> 0u64) & 0x3F) by (bit_vector);
    } else {
        let rest = value / 64;
        let below = (6 * (i - 1)) as u64;
        lemma_digit_is_shift_mask(rest, (i - 1) as nat);
        assert((value / 64) >> below == value >> shift) by (bit_vector)
            requires
                below <= 54,
                shift == below + 6,
        ;
    }
}

/// A value below `64^i` has a zero at digit `i`: its digits end before it.
pub proof fn lemma_digit_zero_beyond(value: nat, i: nat)
    requires
        value < pow(64, i),
    ensures
        digit(value, i) == 0,
    decreases i,
{
    if i == 0 {
        lemma_pow0(64);
    } else {
        lemma_pow_unfold(i);
        lemma_digit_zero_beyond(value / 64, (i - 1) as nat);
    }
}

/// `64^e` is `64 * 64^(e - 1)`, and `64^(e - 1)` is positive.
proof fn lemma_pow_unfold(e: nat)
    requires
        e > 0,
    ensures
        pow(64, e) == 64 * pow(64, (e - 1) as nat),
        pow(64, (e - 1) as nat) > 0,
{
    reveal(pow);
    lemma_pow_positive(64, (e - 1) as nat);
}

/// Two values agree on their first `width` digits exactly when they agree
/// modulo `64^width`.
pub proof fn lemma_same_digits_iff_same_residue(a: nat, b: nat, width: nat)
    ensures
        same_digits(a, b, width) <==> a % (pow(64, width) as nat) == b % (pow(64, width) as nat),
    decreases width,
{
    if width == 0 {
        lemma_pow0(64);
    } else {
        let below = (width - 1) as nat;
        let m = pow(64, below);
        let a_rest = a / 64;
        let b_rest = b / 64;
        lemma_pow_unfold(width);
        lemma_same_digits_iff_same_residue(a_rest, b_rest, below);
        lemma_breakdown(a as int, 64, m);
        lemma_breakdown(b as int, 64, m);
        // a % (64 * m) == 64 * ((a / 64) % m) + a % 64, and likewise for b.
        if same_digits(a, b, width) {
            assert(digit(a, 0) == digit(b, 0));
            assert forall|i: nat| i < below implies #[trigger] digit(a_rest, i) == digit(
                b_rest,
                i,
            ) by {
                assert(digit(a, i + 1) == digit(b, i + 1));
            }
            assert(same_digits(a_rest, b_rest, below));
        }
        if a % (pow(64, width) as nat) == b % (pow(64, width) as nat) {
            assert(a % 64 == b % 64 && a_rest % (m as nat) == b_rest % (m as nat)) by {
                let ra = (a_rest % (m as nat)) as int;
                let rb = (b_rest % (m as nat)) as int;
                assert(64 * ra + (a % 64) as int == 64 * rb + (b % 64) as int);
            }
            assert forall|i: nat| i < width implies #[trigger] digit(a, i) == digit(b, i) by {
                if i > 0 {
                    assert(digit(a_rest, (i - 1) as nat) == digit(b_rest, (i - 1) as nat));
                }
            }
        }
    }
}

/// `64^11` is `2^66`, above every `u64`.
pub proof fn lemma_pow64_11()
    ensures
        pow(64, 11) == 0x4_0000_0000_0000_0000,
{
    reveal_with_fuel(pow, 12);
}

} // verus!
