//! The 64-bit seed finalizer and its inverse.
//!
//! A scalar seed is expanded into the generator's two state words by a
//! Murmur3-style finalizer: three xor-shift-by-33 passes interleaved with two
//! multiplications modulo 2^64. The inverse applies the same shape of mixing
//! with the multiplicative inverses of the two constants, in reverse order of
//! cancellation, and undoes the finalizer exactly. Both directions of that
//! round trip are proved here over the whole 64-bit domain.

use vstd::prelude::*;

verus! {

/// First multiplier of the forward finalizer.
pub const MH3_FACTOR_1: u64 = 0xff51afd7ed558ccd;

/// Second multiplier of the forward finalizer.
pub const MH3_FACTOR_2: u64 = 0xc4ceb9fe1a85ec53;

/// First multiplier of the inverse finalizer: the multiplicative inverse of
/// `MH3_FACTOR_2` modulo 2^64.
pub const INV_MH3_FACTOR_1: u64 = 0x9cb4b2f8129337db;

/// Second multiplier of the inverse finalizer: the multiplicative inverse of
/// `MH3_FACTOR_1` modulo 2^64.
pub const INV_MH3_FACTOR_2: u64 = 0x4f74430c22a54005;

/// Addition modulo 2^64.
pub open spec fn wadd(x: u64, y: u64) -> u64 {
    ((x + y) % 0x1_0000_0000_0000_0000) as u64
}

/// Multiplication modulo 2^64.
pub open spec fn wmul(x: u64, y: u64) -> u64 {
    ((x * y) % 0x1_0000_0000_0000_0000) as u64
}

/// One mixing pass: fold the high 31 bits into the low ones.
pub open spec fn xor_shr33(x: u64) -> u64 {
    x ^ (x >> 33)
}

/// The forward finalizer: what `Random::murmur_hash3` computes.
pub open spec fn hash(x: u64) -> u64 {
    xor_shr33(wmul(xor_shr33(wmul(xor_shr33(x), MH3_FACTOR_1)), MH3_FACTOR_2))
}

/// The inverse finalizer: what `Random::inverse_murmur_hash3` computes.
pub open spec fn inverse_hash(x: u64) -> u64 {
    xor_shr33(wmul(xor_shr33(wmul(xor_shr33(x), INV_MH3_FACTOR_1)), INV_MH3_FACTOR_2))
}

/// Because the shift distance is more than half the word, one xor-shift pass
/// undoes itself.
pub proof fn lemma_xor_shr33_involution(x: u64)
    by (bit_vector)
    ensures
        xor_shr33(xor_shr33(x)) == x,
{
}

proof fn lemma_mul_cancels_factor_1(x: u64)
    by (bit_vector)
    ensures
        wmul(wmul(x, MH3_FACTOR_1), INV_MH3_FACTOR_2) == x,
{
}

proof fn lemma_mul_cancels_factor_2(x: u64)
    by (bit_vector)
    ensures
        wmul(wmul(x, MH3_FACTOR_2), INV_MH3_FACTOR_1) == x,
{
}

proof fn lemma_mul_cancels_inv_factor_1(x: u64)
    by (bit_vector)
    ensures
        wmul(wmul(x, INV_MH3_FACTOR_1), MH3_FACTOR_2) == x,
{
}

proof fn lemma_mul_cancels_inv_factor_2(x: u64)
    by (bit_vector)
    ensures
        wmul(wmul(x, INV_MH3_FACTOR_2), MH3_FACTOR_1) == x,
{
}

/// The inverse finalizer undoes the forward finalizer on every 64-bit value.
pub proof fn lemma_inverse_hash_of_hash(x: u64)
    ensures
        inverse_hash(hash(x)) == x,
{
    let a = xor_shr33(x);
    let b = wmul(a, MH3_FACTOR_1);
    let c = xor_shr33(b);
    let d = wmul(c, MH3_FACTOR_2);
    lemma_xor_shr33_involution(d);
    lemma_mul_cancels_factor_2(c);
    lemma_xor_shr33_involution(b);
    lemma_mul_cancels_factor_1(a);
    lemma_xor_shr33_involution(x);
}

/// The forward finalizer undoes the inverse finalizer on every 64-bit value.
pub proof fn lemma_hash_of_inverse_hash(x: u64)
    ensures
        hash(inverse_hash(x)) == x,
{
    let a = xor_shr33(x);
    let b = wmul(a, INV_MH3_FACTOR_1);
    let c = xor_shr33(b);
    let d = wmul(c, INV_MH3_FACTOR_2);
    lemma_xor_shr33_involution(d);
    lemma_mul_cancels_inv_factor_2(c);
    lemma_xor_shr33_involution(b);
    lemma_mul_cancels_inv_factor_1(a);
    lemma_xor_shr33_involution(x);
}

} // verus!
