//! The mathematical definition of the digests.
//!
//! Everything here is a pure function over `Seq<u8>` and fixed-width words.
//! The executable routines of the crate are each proved equal to one of these
//! functions, so this module alone says which value a digest is.

use vstd::prelude::*;

verus! {

/// First of the three odd 64-bit primes shared by every length bucket.
pub const K0: u64 = 0xc3a5c85c97cb3127;

/// Second shared 64-bit prime.
pub const K1: u64 = 0xb492b66fbe98f273;

/// Third shared 64-bit prime; it is also the 64-bit digest of the empty input.
pub const K2: u64 = 0x9ae16a3b2f90404f;

/// First 32-bit multiplier of the Murmur-style combination step.
pub const C1: u32 = 0xcc9e2d51;

/// Second 32-bit multiplier of the Murmur-style combination step.
pub const C2: u32 = 0x1b873593;

/// Constant added after every multiply-by-five of the 32-bit path.
pub const MIX_ADD: u32 = 0xe6546b64;

/// Multiplier of the unparameterised 16-byte combination.
pub const MUL_16: u64 = 0x9ddfea08eb382d69;

// ---------------------------------------------------------------------------
// Words in a byte sequence
// ---------------------------------------------------------------------------

/// The 32-bit word whose little-endian encoding is `bytes[at .. at + 4]`.
#[verifier::opaque]
pub open spec fn spec_fetch32(bytes: Seq<u8>, at: int) -> u32
    recommends
        0 <= at,
        at + 4 <= bytes.len(),
{
    (bytes[at] + 0x100 * bytes[at + 1] + 0x1_0000 * bytes[at + 2] + 0x100_0000 * bytes[at + 3]) as u32
}

/// The 64-bit word whose little-endian encoding is `bytes[at .. at + 8]`.
#[verifier::opaque]
pub open spec fn spec_fetch64(bytes: Seq<u8>, at: int) -> u64
    recommends
        0 <= at,
        at + 8 <= bytes.len(),
{
    (spec_fetch32(bytes, at) + 0x1_0000_0000 * spec_fetch32(bytes, at + 4)) as u64
}

/// A byte read as a signed 8-bit number and widened to 32 bits: bytes from
/// `0x80` up stand for the negative numbers `-128 ..= -1`.
pub open spec fn spec_sign_extend(byte: u8) -> u32 {
    if byte < 0x80 {
        byte as u32
    } else {
        (byte + 0xffff_ff00) as u32
    }
}

// ---------------------------------------------------------------------------
// Mixing primitives
// ---------------------------------------------------------------------------

/// Rotation of a 32-bit word to the right by `shift` bits (`shift < 32`).
pub open spec fn spec_rotate32(val: u32, shift: u32) -> u32
    recommends
        shift < 32,
{
    if shift == 0 {
        val
    } else {
        (val >> shift) | (val << ((32 - shift) as u32))
    }
}

/// Rotation of a 64-bit word to the right by `shift` bits (`shift < 64`).
pub open spec fn spec_rotate64(val: u64, shift: u64) -> u64
    recommends
        shift < 64,
{
    if shift == 0 {
        val
    } else {
        (val >> shift) | (val << ((64 - shift) as u64))
    }
}

/// The 32-bit word with the four bytes of `val` in reverse order: its most
/// significant byte is the least significant byte of `val`, and so on.
pub open spec fn spec_swap_bytes32(val: u32) -> u32 {
    let b0 = val % 0x100;
    let b1 = (val / 0x100) % 0x100;
    let b2 = (val / 0x1_0000) % 0x100;
    let b3 = val / 0x100_0000;
    (b3 + 0x100 * b2 + 0x1_0000 * b1 + 0x100_0000 * b0) as u32
}

/// The 64-bit word with the eight bytes of `val` in reverse order: its high
/// half is the reversed low half of `val`, its low half the reversed high half.
pub open spec fn spec_swap_bytes64(val: u64) -> u64 {
    let lo = (val % 0x1_0000_0000) as u32;
    let hi = (val / 0x1_0000_0000) as u32;
    (spec_swap_bytes32(hi) + 0x1_0000_0000 * spec_swap_bytes32(lo)) as u64
}

/// Avalanche finalizer of the 32-bit path.
pub open spec fn spec_fmix(h: u32) -> u32 {
    let h = h ^ (h >> 16);
    let h = h.wrapping_mul(0x85ebca6b);
    let h = h ^ (h >> 13);
    let h = h.wrapping_mul(0xc2b2ae35);
    h ^ (h >> 16)
}

/// Scrambling of a data word before it is folded into a running value:
/// multiply by `C1`, rotate right by 17, multiply by `C2`.
pub open spec fn spec_premix(a: u32) -> u32 {
    spec_rotate32(a.wrapping_mul(C1), 17).wrapping_mul(C2)
}

/// Rotate right by `shift`, multiply by five, add `MIX_ADD`.
pub open spec fn spec_mix(h: u32, shift: u32) -> u32 {
    spec_rotate32(h, shift).wrapping_mul(5).wrapping_add(MIX_ADD)
}

/// Rotate right by `shift`, multiply by `C1`.
pub open spec fn spec_rotate_mul(h: u32, shift: u32) -> u32 {
    spec_rotate32(h, shift).wrapping_mul(C1)
}

/// Combination of a data word `a` with a running value `h`.
pub open spec fn spec_mur(a: u32, h: u32) -> u32 {
    spec_mix(h ^ spec_premix(a), 19)
}

/// `val ^ (val >> 47)`.
pub open spec fn spec_shift_mix(val: u64) -> u64 {
    val ^ (val >> 47)
}

/// Combination of two 64-bit values under the multiplier `mul`.
pub open spec fn spec_hash_len_16_with_mul(u: u64, v: u64, mul: u64) -> u64 {
    let a = spec_shift_mix((u ^ v).wrapping_mul(mul));
    let b = spec_shift_mix((v ^ a).wrapping_mul(mul));
    b.wrapping_mul(mul)
}

/// Combination of two 64-bit values under the fixed multiplier `MUL_16`.
pub open spec fn spec_hash_len_16(u: u64, v: u64) -> u64 {
    spec_hash_len_16_with_mul(u, v, MUL_16)
}

/// Compression of four data words and two seeds into a pair of words.
pub open spec fn spec_weak_hash_len_32_with_seeds(
    w: u64,
    x: u64,
    y: u64,
    z: u64,
    a: u64,
    b: u64,
) -> (u64, u64) {
    let a0 = a.wrapping_add(w);
    let b0 = spec_rotate64(b.wrapping_add(a0).wrapping_add(z), 21);
    let a1 = a0.wrapping_add(x).wrapping_add(y);
    let b1 = b0.wrapping_add(spec_rotate64(a1, 44));
    (a1.wrapping_add(z), b1.wrapping_add(a0))
}

/// `spec_weak_hash_len_32_with_seeds` on the four words of `bytes[at .. at + 32]`.
pub open spec fn spec_weak_hash_at(bytes: Seq<u8>, at: int, a: u64, b: u64) -> (u64, u64)
    recommends
        0 <= at,
        at + 32 <= bytes.len(),
{
    spec_weak_hash_len_32_with_seeds(
        spec_fetch64(bytes, at),
        spec_fetch64(bytes, at + 8),
        spec_fetch64(bytes, at + 16),
        spec_fetch64(bytes, at + 24),
        a,
        b,
    )
}

// ---------------------------------------------------------------------------
// The 32-bit digest
// ---------------------------------------------------------------------------

/// The pair `(b, c)` after the first `n` bytes have been folded in, each as a
/// signed byte: `b` is multiplied by `C1` and takes the byte, `c` takes `b` by
/// xor. Before any byte the pair is `(0, 9)`.
pub open spec fn spec_fold_signed(bytes: Seq<u8>, n: nat) -> (u32, u32)
    recommends
        n <= bytes.len(),
    decreases n,
{
    if n == 0 {
        (0u32, 9u32)
    } else {
        let (b, c) = spec_fold_signed(bytes, (n - 1) as nat);
        let b = b.wrapping_mul(C1).wrapping_add(spec_sign_extend(bytes[n - 1]));
        (b, c ^ b)
    }
}

/// The 32-bit digest of at most 4 bytes.
pub open spec fn spec_hash32_len_0_to_4(bytes: Seq<u8>) -> u32
    recommends
        bytes.len() <= 4,
{
    let (b, c) = spec_fold_signed(bytes, bytes.len());
    spec_fmix(spec_mur(b, spec_mur(bytes.len() as u32, c)))
}

/// The 32-bit digest of 5 to 12 bytes. The third word is read at
/// `(n >> 1) & 4`, which on these lengths is 4 from 8 bytes up and 0 below.
pub open spec fn spec_hash32_len_5_to_12(bytes: Seq<u8>) -> u32
    recommends
        5 <= bytes.len() <= 12,
{
    let n = bytes.len() as int;
    let third: int = if n >= 8 {
        4
    } else {
        0
    };
    let d = (5 * n) as u32;
    let a = (n as u32).wrapping_add(spec_fetch32(bytes, 0));
    let b = d.wrapping_add(spec_fetch32(bytes, n - 4));
    let c = 9u32.wrapping_add(spec_fetch32(bytes, third));
    spec_fmix(spec_mur(c, spec_mur(b, spec_mur(a, d))))
}

/// The 32-bit digest of 13 to 24 bytes.
pub open spec fn spec_hash32_len_13_to_24(bytes: Seq<u8>) -> u32
    recommends
        13 <= bytes.len() <= 24,
{
    let n = bytes.len() as int;
    let a = spec_fetch32(bytes, n / 2 - 4);
    let b = spec_fetch32(bytes, 4);
    let c = spec_fetch32(bytes, n - 8);
    let d = spec_fetch32(bytes, n / 2);
    let e = spec_fetch32(bytes, 0);
    let f = spec_fetch32(bytes, n - 4);
    let h = n as u32;
    spec_fmix(spec_mur(f, spec_mur(e, spec_mur(d, spec_mur(c, spec_mur(b, spec_mur(a, h)))))))
}

/// The three running values of the 32-bit digest of more than 24 bytes.
pub struct State32 {
    pub h: u32,
    pub g: u32,
    pub f: u32,
}

/// The running values before the first chunk: the length, folded with the
/// five words of the last 20 bytes.
pub open spec fn spec_hash32_init(bytes: Seq<u8>) -> State32
    recommends
        bytes.len() > 24,
{
    let n = bytes.len() as int;
    let h = n as u32;
    let g = h.wrapping_mul(C1);
    let f = g;
    State32 {
        h: spec_mur(spec_fetch32(bytes, n - 16), spec_mur(spec_fetch32(bytes, n - 4), h)),
        g: spec_mur(spec_fetch32(bytes, n - 12), spec_mur(spec_fetch32(bytes, n - 8), g)),
        f: spec_mix(f.wrapping_add(spec_premix(spec_fetch32(bytes, n - 20))), 19),
    }
}

/// One round of the 32-bit main loop on the 20 bytes `bytes[at .. at + 20]`.
pub open spec fn spec_hash32_round(st: State32, bytes: Seq<u8>, at: int) -> State32
    recommends
        0 <= at,
        at + 20 <= bytes.len(),
{
    let a0 = spec_premix(spec_fetch32(bytes, at));
    let a1 = spec_fetch32(bytes, at + 4);
    let a2 = spec_premix(spec_fetch32(bytes, at + 8));
    let a3 = spec_premix(spec_fetch32(bytes, at + 12));
    let a4 = spec_fetch32(bytes, at + 16);
    let h = spec_mix(st.h ^ a0, 18);
    let f = spec_rotate_mul(st.f.wrapping_add(a1), 19);
    let g = spec_mix(st.g.wrapping_add(a2), 18);
    let h = spec_mix(h ^ a3.wrapping_add(a1), 19);
    let g = spec_swap_bytes32(g ^ a4).wrapping_mul(5);
    let h = spec_swap_bytes32(h.wrapping_add(a4.wrapping_mul(5)));
    let f = f.wrapping_add(a0);
    State32 { h: f, g: h, f: g }
}

/// The running values after the first `rounds` chunks of 20 bytes, taken from
/// the front of `bytes` in order.
pub open spec fn spec_hash32_rounds(bytes: Seq<u8>, rounds: nat) -> State32
    recommends
        bytes.len() > 24,
        20 * rounds <= bytes.len(),
    decreases rounds,
{
    if rounds == 0 {
        spec_hash32_init(bytes)
    } else {
        spec_hash32_round(
            spec_hash32_rounds(bytes, (rounds - 1) as nat),
            bytes,
            20 * (rounds - 1),
        )
    }
}

/// The 32-bit digest that the three running values give.
pub open spec fn spec_hash32_finish(st: State32) -> u32 {
    let g = spec_rotate_mul(spec_rotate_mul(st.g, 11), 17);
    let f = spec_rotate_mul(spec_rotate_mul(st.f, 11), 17);
    let h = spec_rotate_mul(spec_mix(st.h.wrapping_add(g), 19), 17);
    spec_rotate_mul(spec_mix(h.wrapping_add(f), 19), 17)
}

/// The 32-bit digest of more than 24 bytes: `(n - 1) / 20` rounds over the
/// front of the input, after the last 20 bytes have been folded in.
pub open spec fn spec_hash32_len_over_24(bytes: Seq<u8>) -> u32
    recommends
        bytes.len() > 24,
{
    spec_hash32_finish(spec_hash32_rounds(bytes, ((bytes.len() - 1) / 20) as nat))
}

/// The 32-bit digest of a byte sequence.
pub open spec fn spec_hash32(bytes: Seq<u8>) -> u32 {
    if bytes.len() <= 4 {
        spec_hash32_len_0_to_4(bytes)
    } else if bytes.len() <= 12 {
        spec_hash32_len_5_to_12(bytes)
    } else if bytes.len() <= 24 {
        spec_hash32_len_13_to_24(bytes)
    } else {
        spec_hash32_len_over_24(bytes)
    }
}

// ---------------------------------------------------------------------------
// The 64-bit digest
// ---------------------------------------------------------------------------

/// The multiplier `K2 + 2n` of the buckets up to 64 bytes.
pub open spec fn spec_len_mul(n: nat) -> u64
    recommends
        n <= 64,
{
    (K2 + 2 * n) as u64
}

/// The 64-bit digest of at most 16 bytes.
pub open spec fn spec_hash64_len_0_to_16(bytes: Seq<u8>) -> u64
    recommends
        bytes.len() <= 16,
{
    let n = bytes.len() as int;
    if n >= 8 {
        let mul = spec_len_mul(bytes.len());
        let a = spec_fetch64(bytes, 0).wrapping_add(K2);
        let b = spec_fetch64(bytes, n - 8);
        let c = spec_rotate64(b, 37).wrapping_mul(mul).wrapping_add(a);
        let d = spec_rotate64(a, 25).wrapping_add(b).wrapping_mul(mul);
        spec_hash_len_16_with_mul(c, d, mul)
    } else if n >= 4 {
        let mul = spec_len_mul(bytes.len());
        let a = spec_fetch32(bytes, 0);
        spec_hash_len_16_with_mul((n + 8 * a) as u64, spec_fetch32(bytes, n - 4) as u64, mul)
    } else if n > 0 {
        let y = (bytes[0] + 0x100 * bytes[n / 2]) as u64;
        let z = (n + 4 * bytes[n - 1]) as u64;
        spec_shift_mix(y.wrapping_mul(K2) ^ z.wrapping_mul(K0)).wrapping_mul(K2)
    } else {
        K2
    }
}

/// The 64-bit digest of 17 to 32 bytes.
pub open spec fn spec_hash64_len_17_to_32(bytes: Seq<u8>) -> u64
    recommends
        17 <= bytes.len() <= 32,
{
    let n = bytes.len() as int;
    let mul = spec_len_mul(bytes.len());
    let a = spec_fetch64(bytes, 0).wrapping_mul(K1);
    let b = spec_fetch64(bytes, 8);
    let c = spec_fetch64(bytes, n - 8).wrapping_mul(mul);
    let d = spec_fetch64(bytes, n - 16).wrapping_mul(K2);
    spec_hash_len_16_with_mul(
        spec_rotate64(a.wrapping_add(b), 43).wrapping_add(spec_rotate64(c, 30)).wrapping_add(d),
        a.wrapping_add(spec_rotate64(b.wrapping_add(K2), 18)).wrapping_add(c),
        mul,
    )
}

/// The 64-bit digest of 33 to 64 bytes.
pub open spec fn spec_hash64_len_33_to_64(bytes: Seq<u8>) -> u64
    recommends
        33 <= bytes.len() <= 64,
{
    let n = bytes.len() as int;
    let mul = spec_len_mul(bytes.len());
    let a = spec_fetch64(bytes, 0).wrapping_mul(K2);
    let b = spec_fetch64(bytes, 8);
    let c = spec_fetch64(bytes, n - 24);
    let d = spec_fetch64(bytes, n - 32);
    let e = spec_fetch64(bytes, 16).wrapping_mul(K2);
    let f = spec_fetch64(bytes, 24).wrapping_mul(9);
    let g = spec_fetch64(bytes, n - 8);
    let h = spec_fetch64(bytes, n - 16).wrapping_mul(mul);
    let u = spec_rotate64(a.wrapping_add(g), 43).wrapping_add(
        spec_rotate64(b, 30).wrapping_add(c).wrapping_mul(9),
    );
    let v = (a.wrapping_add(g) ^ d).wrapping_add(f).wrapping_add(1);
    let w = spec_swap_bytes64(u.wrapping_add(v).wrapping_mul(mul)).wrapping_add(h);
    let x = spec_rotate64(e.wrapping_add(f), 42).wrapping_add(c);
    let y = spec_swap_bytes64(v.wrapping_add(w).wrapping_mul(mul)).wrapping_add(g).wrapping_mul(
        mul,
    );
    let z = e.wrapping_add(f).wrapping_add(c);
    let a = spec_swap_bytes64(x.wrapping_add(z).wrapping_mul(mul).wrapping_add(y)).wrapping_add(b);
    let b = spec_shift_mix(
        z.wrapping_add(a).wrapping_mul(mul).wrapping_add(d).wrapping_add(h),
    ).wrapping_mul(mul);
    b.wrapping_add(x)
}

/// The 56 bytes of rolling state of the 64-bit digest of more than 64 bytes.
pub struct State64 {
    pub x: u64,
    pub y: u64,
    pub z: u64,
    pub v: (u64, u64),
    pub w: (u64, u64),
}

/// The rolling state before the first chunk: read from the last 64 bytes and
/// the first word.
pub open spec fn spec_hash64_init(bytes: Seq<u8>) -> State64
    recommends
        bytes.len() > 64,
{
    let n = bytes.len() as int;
    let x = spec_fetch64(bytes, n - 40);
    let y = spec_fetch64(bytes, n - 16).wrapping_add(spec_fetch64(bytes, n - 56));
    let z = spec_hash_len_16(
        spec_fetch64(bytes, n - 48).wrapping_add(n as u64),
        spec_fetch64(bytes, n - 24),
    );
    State64 {
        x: x.wrapping_mul(K1).wrapping_add(spec_fetch64(bytes, 0)),
        y,
        z,
        v: spec_weak_hash_at(bytes, n - 64, n as u64, z),
        w: spec_weak_hash_at(bytes, n - 32, y.wrapping_add(K1), x),
    }
}

/// One round of the 64-bit main loop on the 64 bytes `bytes[at .. at + 64]`.
pub open spec fn spec_hash64_round(st: State64, bytes: Seq<u8>, at: int) -> State64
    recommends
        0 <= at,
        at + 64 <= bytes.len(),
{
    let x = spec_rotate64(
        st.x.wrapping_add(st.y).wrapping_add(st.v.0).wrapping_add(spec_fetch64(bytes, at + 8)),
        37,
    ).wrapping_mul(K1) ^ st.w.1;
    let y = spec_rotate64(
        st.y.wrapping_add(st.v.1).wrapping_add(spec_fetch64(bytes, at + 48)),
        42,
    ).wrapping_mul(K1).wrapping_add(st.v.0.wrapping_add(spec_fetch64(bytes, at + 40)));
    let z = spec_rotate64(st.z.wrapping_add(st.w.0), 33).wrapping_mul(K1);
    let v = spec_weak_hash_at(bytes, at, st.v.1.wrapping_mul(K1), x.wrapping_add(st.w.0));
    let w = spec_weak_hash_at(
        bytes,
        at + 32,
        z.wrapping_add(st.w.1),
        y.wrapping_add(spec_fetch64(bytes, at + 16)),
    );
    State64 { x: z, y, z: x, v, w }
}

/// The rolling state after the first `rounds` chunks of 64 bytes, taken from
/// the front of `bytes` in order.
pub open spec fn spec_hash64_rounds(bytes: Seq<u8>, rounds: nat) -> State64
    recommends
        bytes.len() > 64,
        64 * rounds <= bytes.len(),
    decreases rounds,
{
    if rounds == 0 {
        spec_hash64_init(bytes)
    } else {
        spec_hash64_round(
            spec_hash64_rounds(bytes, (rounds - 1) as nat),
            bytes,
            64 * (rounds - 1),
        )
    }
}

/// The 64-bit digest that a rolling state gives.
pub open spec fn spec_hash64_finish(st: State64) -> u64 {
    spec_hash_len_16(
        spec_hash_len_16(st.v.0, st.w.0).wrapping_add(
            spec_shift_mix(st.y).wrapping_mul(K1).wrapping_add(st.z),
        ),
        spec_hash_len_16(st.v.1, st.w.1).wrapping_add(st.x),
    )
}

/// The 64-bit digest of more than 64 bytes: `(n - 1) / 64` rounds over the
/// front of the input, after the last 64 bytes have been read.
pub open spec fn spec_hash64_len_over_64(bytes: Seq<u8>) -> u64
    recommends
        bytes.len() > 64,
{
    spec_hash64_finish(spec_hash64_rounds(bytes, ((bytes.len() - 1) / 64) as nat))
}

/// The 64-bit digest of a byte sequence.
pub open spec fn spec_hash64(bytes: Seq<u8>) -> u64 {
    if bytes.len() <= 16 {
        spec_hash64_len_0_to_16(bytes)
    } else if bytes.len() <= 32 {
        spec_hash64_len_17_to_32(bytes)
    } else if bytes.len() <= 64 {
        spec_hash64_len_33_to_64(bytes)
    } else {
        spec_hash64_len_over_64(bytes)
    }
}

/// The seeded 64-bit digest: one more combination step over the unseeded one.
pub open spec fn spec_hash64_with_seed(bytes: Seq<u8>, seed: u64) -> u64 {
    spec_hash_len_16(spec_hash64(bytes).wrapping_sub(K2), seed)
}

} // verus!
