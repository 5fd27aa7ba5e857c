//! The bit mixer that makes sequential counters look unrelated.
//!
//! The mixer multiplies by an odd constant, folds the high bits down with an
//! xor-shift, and does both once more. Each of the four steps can be undone,
//! so the mixer maps the 64-bit integers one-to-one onto themselves: two
//! distinct counters never mix to the same value.

use vstd::prelude::*;

verus! {

/// The first multiplier: the 64-bit golden-ratio constant.
pub const MIX_MULTIPLIER_1: u64 = 0x9e3779b97f4a7c15;

/// The second multiplier.
pub const MIX_MULTIPLIER_2: u64 = 0xbf58476d1ce4e5b9;

/// The inverse of the first multiplier modulo `2^64`.
pub const UNMIX_MULTIPLIER_1: u64 = 0xf1de83e19937733d;

/// The inverse of the second multiplier modulo `2^64`.
pub const UNMIX_MULTIPLIER_2: u64 = 0x96de1b173f119089;

/// The mixed form of `n`.
pub open spec fn mixed(n: u64) -> u64 {
    let a = n.wrapping_mul(MIX_MULTIPLIER_1);
    let b = a ^ (a >> 30);
    let c = b.wrapping_mul(MIX_MULTIPLIER_2);
    c ^ (c >> 27)
}

/// The value whose mixed form is `m`.
pub open spec fn unmixed(m: u64) -> u64 {
    let c = m ^ (m >> 27) ^ (m >> 54);
    let b = c.wrapping_mul(UNMIX_MULTIPLIER_2);
    let a = b ^ (b >> 30) ^ (b >> 60);
    a.wrapping_mul(UNMIX_MULTIPLIER_1)
}

/// Mixes `n`: multiply, fold the high bits down, and once more.
pub fn splitmix64(n: u64) -> (m: u64)
    ensures
        m == mixed(n),
{
    let mut x: u64 = n.wrapping_mul(MIX_MULTIPLIER_1);
    x ^= x >> 30;
    x = x.wrapping_mul(MIX_MULTIPLIER_2);
    x ^= x >> 27;
    x
}

/// Multiplying by the first multiplier and by its inverse cancel, in either order.
proof fn lemma_multiplier_1_inverts(x: u64)
    ensures
        x.wrapping_mul(MIX_MULTIPLIER_1).wrapping_mul(UNMIX_MULTIPLIER_1) == x,
        x.wrapping_mul(UNMIX_MULTIPLIER_1).wrapping_mul(MIX_MULTIPLIER_1) == x,
{
    assert(x.wrapping_mul(0x9e3779b97f4a7c15u64).wrapping_mul(0xf1de83e19937733du64) == x)
        by (bit_vector);
    assert(x.wrapping_mul(0xf1de83e19937733du64).wrapping_mul(0x9e3779b97f4a7c15u64) == x)
        by (bit_vector);
}

/// Multiplying by the second multiplier and by its inverse cancel, in either order.
proof fn lemma_multiplier_2_inverts(x: u64)
    ensures
        x.wrapping_mul(MIX_MULTIPLIER_2).wrapping_mul(UNMIX_MULTIPLIER_2) == x,
        x.wrapping_mul(UNMIX_MULTIPLIER_2).wrapping_mul(MIX_MULTIPLIER_2) == x,
{
    assert(x.wrapping_mul(0xbf58476d1ce4e5b9u64).wrapping_mul(0x96de1b173f119089u64) == x)
        by (bit_vector);
    assert(x.wrapping_mul(0x96de1b173f119089u64).wrapping_mul(0xbf58476d1ce4e5b9u64) == x)
        by (bit_vector);
}

/// Folding by 30 bits is undone by folding by 30 and by 60 bits.
proof fn lemma_fold_30_inverts(x: u64)
    ensures
        ({
            let y = x ^ (x >> 30);
            y ^ (y >> 30) ^ (y >> 60)
        }) == x,
        ({
            let y = x ^ (x >> 30) ^ (x >> 60);
            y ^ (y >> 30)
        }) == x,
{
    assert(({
        let y = x ^ (x >> 30);
        y ^ (y >> 30) ^ (y >> 60)
    }) == x) by (bit_vector);
    assert(({
        let y = x ^ (x >> 30) ^ (x >> 60);
        y ^ (y >> 30)
    }) == x) by (bit_vector);
}

/// Folding by 27 bits is undone by folding by 27 and by 54 bits.
proof fn lemma_fold_27_inverts(x: u64)
    ensures
        ({
            let y = x ^ (x >> 27);
            y ^ (y >> 27) ^ (y >> 54)
        }) == x,
        ({
            let y = x ^ (x >> 27) ^ (x >> 54);
            y ^ (y >> 27)
        }) == x,
{
    assert(({
        let y = x ^ (x >> 27);
        y ^ (y >> 27) ^ (y >> 54)
    }) == x) by (bit_vector);
    assert(({
        let y = x ^ (x >> 27) ^ (x >> 54);
        y ^ (y >> 27)
    }) == x) by (bit_vector);
}

/// Unmixing undoes mixing.
pub proof fn lemma_unmixed_of_mixed(n: u64)
    ensures
        unmixed(mixed(n)) == n,
{
    let a = n.wrapping_mul(MIX_MULTIPLIER_1);
    let b = a ^ (a >> 30);
    let c = b.wrapping_mul(MIX_MULTIPLIER_2);
    lemma_fold_27_inverts(c);
    lemma_multiplier_2_inverts(b);
    lemma_fold_30_inverts(a);
    lemma_multiplier_1_inverts(n);
}

/// Mixing undoes unmixing.
pub proof fn lemma_mixed_of_unmixed(m: u64)
    ensures
        mixed(unmixed(m)) == m,
{
    let c = m ^ (m >> 27) ^ (m >> 54);
    let b = c.wrapping_mul(UNMIX_MULTIPLIER_2);
    let a = b ^ (b >> 30) ^ (b >> 60);
    lemma_multiplier_1_inverts(a);
    lemma_fold_30_inverts(b);
    lemma_multiplier_2_inverts(c);
    lemma_fold_27_inverts(m);
}

/// The mixer never maps two distinct values to the same output.
pub proof fn lemma_mixed_injective(a: u64, b: u64)
    requires
        mixed(a) == mixed(b),
    ensures
        a == b,
{
    lemma_unmixed_of_mixed(a);
    lemma_unmixed_of_mixed(b);
}

/// Every 64-bit value is the mixed form of some value.
pub proof fn lemma_mixed_surjective(m: u64)
    ensures
        exists|n: u64| mixed(n) == m,
{
    lemma_mixed_of_unmixed(m);
    assert(mixed(unmixed(m)) == m);
}

/// Zero is a fixed point of the mixer.
pub proof fn lemma_mixed_zero()
    ensures
        mixed(0) == 0,
{
    assert(0u64.wrapping_mul(0x9e3779b97f4a7c15u64) == 0) by (bit_vector);
    assert(0u64.wrapping_mul(0xbf58476d1ce4e5b9u64) == 0) by (bit_vector);
    assert(0u64 ^ (0u64 >> 30) == 0) by (bit_vector);
    assert(0u64 ^ (0u64 >> 27) == 0) by (bit_vector);
}

} // verus!
