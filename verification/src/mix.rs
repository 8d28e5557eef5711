//! The stateless mixing primitives: rotation, byte reversal, the avalanche
//! finalizer, the Murmur-style combination and the 64-bit folds.

use crate::model::{
    spec_fmix, spec_hash_len_16, spec_hash_len_16_with_mul, spec_mur, spec_rotate32,
    spec_rotate64, spec_shift_mix, spec_swap_bytes32, spec_swap_bytes64,
    spec_weak_hash_len_32_with_seeds, C1, C2, MIX_ADD, MUL_16,
};
use vstd::prelude::*;

verus! {

/// Rotates `val` to the right by `shift` bits; a shift of 0 leaves it unchanged.
pub fn rotate32(val: u32, shift: u32) -> (r: u32)
    requires
        shift < 32,
    ensures
        r == spec_rotate32(val, shift),
{
    if shift == 0 {
        val
    } else {
        (val >> shift) | (val << (32 - shift))
    }
}

/// Rotates `val` to the right by `shift` bits; a shift of 0 leaves it unchanged.
pub fn rotate64(val: u64, shift: u64) -> (r: u64)
    requires
        shift < 64,
    ensures
        r == spec_rotate64(val, shift),
{
    if shift == 0 {
        val
    } else {
        (val >> shift) | (val << (64 - shift))
    }
}

/// Reverses the order of the four bytes of `val`.
pub fn swap_bytes32(val: u32) -> (r: u32)
    ensures
        r == spec_swap_bytes32(val),
{
    let r = (val << 24) | ((val & 0xff00) << 8) | ((val >> 8) & 0xff00) | (val >> 24);
    assert(r == ((val / 0x100_0000) + 0x100 * ((val / 0x1_0000) % 0x100) + 0x1_0000 * ((val
        / 0x100) % 0x100) + 0x100_0000 * (val % 0x100)) as u32) by (bit_vector)
        requires
            r == (val << 24) | ((val & 0xff00) << 8) | ((val >> 8) & 0xff00) | (val >> 24),
    ;
    r
}

/// Reverses the order of the eight bytes of `val`.
pub fn swap_bytes64(val: u64) -> (r: u64)
    ensures
        r == spec_swap_bytes64(val),
{
    let lo = val as u32;
    let hi = (val >> 32) as u32;
    assert(lo == (val % 0x1_0000_0000) as u32 && hi == (val / 0x1_0000_0000) as u32)
        by (bit_vector)
        requires
            lo == val as u32,
            hi == (val >> 32) as u32,
    ;
    let high = swap_bytes32(lo) as u64;
    let low = swap_bytes32(hi) as u64;
    let r = (high << 32) | low;
    assert(r == (low + 0x1_0000_0000 * high) as u64) by (bit_vector)
        requires
            low < 0x1_0000_0000,
            high < 0x1_0000_0000,
            r == (high << 32) | low,
    ;
    r
}

/// The avalanche finalizer of the 32-bit digest.
pub fn fmix(h: u32) -> (r: u32)
    ensures
        r == spec_fmix(h),
{
    let mut h = h;
    h ^= h >> 16;
    h = h.wrapping_mul(0x85ebca6b);
    h ^= h >> 13;
    h = h.wrapping_mul(0xc2b2ae35);
    h ^= h >> 16;
    h
}

/// Combines the data word `a` with the running value `h`.
pub fn mur(a: u32, h: u32) -> (r: u32)
    ensures
        r == spec_mur(a, h),
{
    let mut a = a;
    let mut h = h;
    a = a.wrapping_mul(C1);
    a = rotate32(a, 17);
    a = a.wrapping_mul(C2);
    h ^= a;
    h = rotate32(h, 19);
    h.wrapping_mul(5).wrapping_add(MIX_ADD)
}

/// `val ^ (val >> 47)`.
pub fn shift_mix(val: u64) -> (r: u64)
    ensures
        r == spec_shift_mix(val),
{
    val ^ (val >> 47)
}

/// Cyclic permutation of three values: `a` takes what `c` held, `b` what `a`
/// held and `c` what `b` held.
pub fn permute3<T>(a: &mut T, b: &mut T, c: &mut T)
    ensures
        *final(a) == *old(c),
        *final(b) == *old(a),
        *final(c) == *old(b),
{
    core::mem::swap(a, b);
    core::mem::swap(a, c);
}

/// Combines two 64-bit values under the multiplier `mul`.
pub fn hash_len_16_with_mul(u: u64, v: u64, mul: u64) -> (r: u64)
    ensures
        r == spec_hash_len_16_with_mul(u, v, mul),
{
    let mut a = (u ^ v).wrapping_mul(mul);
    a ^= a >> 47;
    let mut b = (v ^ a).wrapping_mul(mul);
    b ^= b >> 47;
    b.wrapping_mul(mul)
}

/// Combines two 64-bit values under the fixed multiplier.
pub fn hash_len_16_u64(u: u64, v: u64) -> (r: u64)
    ensures
        r == spec_hash_len_16(u, v),
{
    hash_len_16_with_mul(u, v, MUL_16)
}

/// Compresses the four data words `w`, `x`, `y`, `z` and the two seeds `a`,
/// `b` into a pair of words.
pub fn weak_hash_len_32_with_seeds(w: u64, x: u64, y: u64, z: u64, a: u64, b: u64) -> (r: (
    u64,
    u64,
))
    ensures
        r == spec_weak_hash_len_32_with_seeds(w, x, y, z, a, b),
{
    let a = a.wrapping_add(w);
    let b = rotate64(b.wrapping_add(a).wrapping_add(z), 21);
    let c = a;
    let a = a.wrapping_add(x);
    let a = a.wrapping_add(y);
    let b = b.wrapping_add(rotate64(a, 44));
    (a.wrapping_add(z), b.wrapping_add(c))
}

} // verus!
