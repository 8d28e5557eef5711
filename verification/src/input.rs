//! The byte view over an input buffer and the two length-dispatched digests
//! that read through it.

use crate::mix::{
    fmix, hash_len_16_u64, hash_len_16_with_mul, mur, permute3, rotate32, rotate64, shift_mix,
    swap_bytes32, swap_bytes64, weak_hash_len_32_with_seeds,
};
use crate::model::{
    spec_fetch32, spec_fetch64, spec_fold_signed, spec_hash32, spec_hash32_len_0_to_4,
    spec_hash32_len_13_to_24, spec_hash32_len_5_to_12, spec_hash32_rounds, spec_hash64,
    spec_hash64_len_0_to_16, spec_hash64_len_17_to_32, spec_hash64_len_33_to_64,
    spec_hash64_rounds, spec_sign_extend, spec_weak_hash_at, State32, State64, C1, C2, K0, K1,
    K2, MIX_ADD,
};
use vstd::prelude::*;

verus! {

/// A borrowed window over an input buffer. Its view is the byte sequence.
///
/// Every read goes through Rust's checked indexing. The offsets that the
/// digests compute are proved to lie inside the window for every length, so
/// no check can fail and no digest can abort.
pub struct Input<'a>(pub &'a [u8]);

impl<'a> View for Input<'a> {
    type V = Seq<u8>;

    open spec fn view(&self) -> Seq<u8> {
        self.0@
    }
}

impl<'a> Input<'a> {
    /// The number of bytes in the window.
    pub fn len(&self) -> (n: usize)
        ensures
            n == self@.len(),
    {
        self.0.len()
    }

    /// Reads the little-endian 32-bit word at `offset`. The four bytes must lie
    /// inside the window; every caller in this crate is proved to respect that.
    pub fn fetch32(&self, offset: usize) -> (word: u32)
        requires
            offset + 4 <= self@.len(),
        ensures
            word == spec_fetch32(self@, offset as int),
    {
        reveal(spec_fetch32);
        let b0 = self.0[offset] as u32;
        let b1 = self.0[offset + 1] as u32;
        let b2 = self.0[offset + 2] as u32;
        let b3 = self.0[offset + 3] as u32;
        let word = b0 | (b1 << 8) | (b2 << 16) | (b3 << 24);
        assert(word == (b0 + 0x100 * b1 + 0x1_0000 * b2 + 0x100_0000 * b3) as u32) by (bit_vector)
            requires
                b0 < 0x100,
                b1 < 0x100,
                b2 < 0x100,
                b3 < 0x100,
                word == b0 | (b1 << 8) | (b2 << 16) | (b3 << 24),
        ;
        word
    }

    /// Reads the little-endian 64-bit word at `offset`. The eight bytes must lie
    /// inside the window; every caller in this crate is proved to respect that.
    pub fn fetch64(&self, offset: usize) -> (word: u64)
        requires
            offset + 8 <= self@.len(),
        ensures
            word == spec_fetch64(self@, offset as int),
    {
        reveal(spec_fetch64);
        assert(self@.len() == self.0.len());
        let lo = self.fetch32(offset) as u64;
        let hi = self.fetch32(offset + 4) as u64;
        let word = lo | (hi << 32);
        assert(word == (lo + 0x1_0000_0000 * hi) as u64) by (bit_vector)
            requires
                lo < 0x1_0000_0000,
                hi < 0x1_0000_0000,
                word == lo | (hi << 32),
        ;
        word
    }

    /// The 32-bit digest of a window of 13 to 24 bytes.
    pub fn hash32_len_13_to_24(&self) -> (digest: u32)
        requires
            13 <= self@.len() <= 24,
        ensures
            digest == spec_hash32_len_13_to_24(self@),
    {
        proof {
            lemma_half(self.0.len());
        }
        let a = self.fetch32((self.len() >> 1) - 4);
        let b = self.fetch32(4);
        let c = self.fetch32(self.len() - 8);
        let d = self.fetch32(self.len() >> 1);
        let e = self.fetch32(0);
        let f = self.fetch32(self.len() - 4);
        let h = self.len() as u32;

        fmix(mur(f, mur(e, mur(d, mur(c, mur(b, mur(a, h)))))))
    }

    /// The 32-bit digest of a window of at most 4 bytes.
    pub fn hash32_len_0_to_4(&self) -> (digest: u32)
        requires
            self@.len() <= 4,
        ensures
            digest == spec_hash32_len_0_to_4(self@),
    {
        let mut b = 0_u32;
        let mut c = 9_u32;
        let mut i: usize = 0;
        while i < self.len()
            invariant
                i <= self@.len(),
                (b, c) == spec_fold_signed(self@, i as nat),
            decreases self@.len() - i,
        {
            let v = self.0[i];
            let as_signed = v as i8;
            assert(as_signed as u32 == spec_sign_extend(v)) by (bit_vector)
                requires
                    as_signed == v as i8,
            ;
            b = b.wrapping_mul(C1).wrapping_add(as_signed as u32);
            c ^= b;
            i += 1;
        }
        fmix(mur(b, mur(self.len() as u32, c)))
    }

    /// The 32-bit digest of a window of 5 to 12 bytes.
    pub fn hash32_len_5_to_12(&self) -> (digest: u32)
        requires
            5 <= self@.len() <= 12,
        ensures
            digest == spec_hash32_len_5_to_12(self@),
    {
        let mut a = self.len() as u32;
        let mut b = a.wrapping_mul(5);
        let mut c = 9_u32;
        let d = b;
        assert(d == (5 * self@.len()) as u32);
        proof {
            lemma_third_word(self.0.len());
        }

        a = a.wrapping_add(self.fetch32(0));
        b = b.wrapping_add(self.fetch32(self.len() - 4));
        c = c.wrapping_add(self.fetch32((self.len() >> 1) & 4));
        fmix(mur(c, mur(b, mur(a, d))))
    }

    /// The 32-bit digest of the window.
    pub fn hash32(&self) -> (digest: u32)
        ensures
            digest == spec_hash32(self@),
    {
        if self.len() <= 24 {
            return if self.len() <= 12 {
                if self.len() <= 4 {
                    self.hash32_len_0_to_4()
                } else {
                    self.hash32_len_5_to_12()
                }
            } else {
                self.hash32_len_13_to_24()
            };
        }
        // len > 24

        let mut h = self.len() as u32;
        let mut g = h.wrapping_mul(C1);
        let mut f = g;
        let a0 = rotate32(self.fetch32(self.len() - 4).wrapping_mul(C1), 17).wrapping_mul(C2);
        let a1 = rotate32(self.fetch32(self.len() - 8).wrapping_mul(C1), 17).wrapping_mul(C2);
        let a2 = rotate32(self.fetch32(self.len() - 16).wrapping_mul(C1), 17).wrapping_mul(C2);
        let a3 = rotate32(self.fetch32(self.len() - 12).wrapping_mul(C1), 17).wrapping_mul(C2);
        let a4 = rotate32(self.fetch32(self.len() - 20).wrapping_mul(C1), 17).wrapping_mul(C2);
        h ^= a0;
        h = rotate32(h, 19);
        h = h.wrapping_mul(5).wrapping_add(MIX_ADD);
        h ^= a2;
        h = rotate32(h, 19);
        h = h.wrapping_mul(5).wrapping_add(MIX_ADD);
        g ^= a1;
        g = rotate32(g, 19);
        g = g.wrapping_mul(5).wrapping_add(MIX_ADD);
        g ^= a3;
        g = rotate32(g, 19);
        g = g.wrapping_mul(5).wrapping_add(MIX_ADD);
        f = f.wrapping_add(a4);
        f = rotate32(f, 19);
        f = f.wrapping_mul(5).wrapping_add(MIX_ADD);
        let mut iters = (self.0.len() - 1) / 20;
        let mut offset: usize = 0;
        let ghost rounds = iters;

        loop
            invariant_except_break
                self@.len() == self.0.len(),
                20 * rounds < self@.len(),
                1 <= iters <= rounds,
                offset == 20 * (rounds - iters),
                (State32 { h, g, f }) == spec_hash32_rounds(self@, (rounds - iters) as nat),
            ensures
                (State32 { h, g, f }) == spec_hash32_rounds(self@, rounds as nat),
            decreases iters,
        {
            let a0 = rotate32(self.fetch32(offset).wrapping_mul(C1), 17).wrapping_mul(C2);
            let a1 = self.fetch32(offset + 4);
            let a2 = rotate32(self.fetch32(offset + 8).wrapping_mul(C1), 17).wrapping_mul(C2);
            let a3 = rotate32(self.fetch32(offset + 12).wrapping_mul(C1), 17).wrapping_mul(C2);
            let a4 = self.fetch32(offset + 16);
            h ^= a0;
            h = rotate32(h, 18);
            h = h.wrapping_mul(5).wrapping_add(MIX_ADD);
            f = f.wrapping_add(a1);
            f = rotate32(f, 19);
            f = f.wrapping_mul(C1);
            g = g.wrapping_add(a2);
            g = rotate32(g, 18);
            g = g.wrapping_mul(5).wrapping_add(MIX_ADD);
            h ^= a3.wrapping_add(a1);
            h = rotate32(h, 19);
            h = h.wrapping_mul(5).wrapping_add(MIX_ADD);
            g ^= a4;
            g = swap_bytes32(g).wrapping_mul(5);
            h = h.wrapping_add(a4.wrapping_mul(5));
            h = swap_bytes32(h);
            f = f.wrapping_add(a0);
            permute3(&mut f, &mut h, &mut g);
            offset += 20;
            iters -= 1;
            if iters == 0 {
                break ;
            }
        }
        g = rotate32(g, 11).wrapping_mul(C1);
        g = rotate32(g, 17).wrapping_mul(C1);
        f = rotate32(f, 11).wrapping_mul(C1);
        f = rotate32(f, 17).wrapping_mul(C1);
        h = rotate32(h.wrapping_add(g), 19);
        h = h.wrapping_mul(5).wrapping_add(MIX_ADD);
        h = rotate32(h, 17).wrapping_mul(C1);
        h = rotate32(h.wrapping_add(f), 19);
        h = h.wrapping_mul(5).wrapping_add(MIX_ADD);
        h = rotate32(h, 17).wrapping_mul(C1);
        h
    }

    /// The 64-bit digest of the window.
    pub fn hash64(&self) -> (digest: u64)
        ensures
            digest == spec_hash64(self@),
    {
        if self.len() <= 32 {
            if self.len() <= 16 {
                return self.hash64_len_0_to_16();
            } else {
                return self.hash64_len_17_to_32();
            }
        } else if self.len() <= 64 {
            return self.hash64_len_33_to_64();
        }
        // For inputs over 64 bytes the end is read first; the loop then keeps
        // 56 bytes of state: v, w, x, y, and z.

        let mut x = self.fetch64(self.len() - 40);
        let mut y = self.fetch64(self.len() - 16).wrapping_add(self.fetch64(self.len() - 56));
        let mut z = hash_len_16_u64(
            self.fetch64(self.len() - 48).wrapping_add(self.len() as u64),
            self.fetch64(self.len() - 24),
        );
        let mut v = self.weak_hash_len_32_with_seeds(self.len() - 64, self.len() as u64, z);
        let mut w = self.weak_hash_len_32_with_seeds(self.len() - 32, y.wrapping_add(K1), x);
        x = x.wrapping_mul(K1).wrapping_add(self.fetch64(0));

        // All 64-byte chunks that end before the last byte, from the front.
        let chunks = (self.len() - 1) / 64;
        let mut chunk: usize = 0;
        while chunk < chunks
            invariant
                self@.len() == self.0.len(),
                64 * chunks < self@.len(),
                chunk <= chunks,
                (State64 { x, y, z, v, w }) == spec_hash64_rounds(self@, chunk as nat),
            decreases chunks - chunk,
        {
            let start = chunk * 64;
            x = rotate64(
                x.wrapping_add(y).wrapping_add(v.0).wrapping_add(self.fetch64(start + 8)),
                37,
            ).wrapping_mul(K1);
            y = rotate64(y.wrapping_add(v.1).wrapping_add(self.fetch64(start + 48)), 42).wrapping_mul(
                K1,
            );
            x ^= w.1;
            y = y.wrapping_add(v.0.wrapping_add(self.fetch64(start + 40)));
            z = rotate64(z.wrapping_add(w.0), 33).wrapping_mul(K1);
            v = self.weak_hash_len_32_with_seeds(start, v.1.wrapping_mul(K1), x.wrapping_add(w.0));
            w = self.weak_hash_len_32_with_seeds(
                start + 32,
                z.wrapping_add(w.1),
                y.wrapping_add(self.fetch64(start + 16)),
            );
            core::mem::swap(&mut z, &mut x);
            chunk += 1;
        }
        hash_len_16_u64(
            hash_len_16_u64(v.0, w.0).wrapping_add(shift_mix(y).wrapping_mul(K1).wrapping_add(z)),
            hash_len_16_u64(v.1, w.1).wrapping_add(x),
        )
    }

    /// The 64-bit digest of a window of at most 16 bytes.
    pub fn hash64_len_0_to_16(&self) -> (digest: u64)
        requires
            self@.len() <= 16,
        ensures
            digest == spec_hash64_len_0_to_16(self@),
    {
        if self.len() >= 8 {
            let mul = K2.wrapping_add((self.len() as u64).wrapping_mul(2));
            let a = self.fetch64(0).wrapping_add(K2);
            let b = self.fetch64(self.len() - 8);
            let c = rotate64(b, 37).wrapping_mul(mul).wrapping_add(a);
            let d = rotate64(a, 25).wrapping_add(b).wrapping_mul(mul);
            hash_len_16_with_mul(c, d, mul)
        } else if self.len() >= 4 {
            let mul = K2.wrapping_add((self.len() as u64).wrapping_mul(2));
            let a = self.fetch32(0) as u64;
            assert(a << 3 == 8 * a) by (bit_vector)
                requires
                    a < 0x1_0000_0000,
            ;
            hash_len_16_with_mul(
                (self.len() as u64).wrapping_add(a << 3),
                self.fetch32(self.len() - 4) as u64,
                mul,
            )
        } else if self.len() > 0 {
            proof {
                lemma_half(self.0.len());
            }
            let a = self.0[0] as u32;
            let b = self.0[self.len() >> 1] as u32;
            let c = self.0[self.len() - 1] as u32;
            assert(b << 8 == 0x100 * b && c << 2 == 4 * c) by (bit_vector)
                requires
                    b < 0x100,
                    c < 0x100,
            ;
            let y = a.wrapping_add(b << 8);
            let z = (self.len() as u32).wrapping_add(c << 2);
            shift_mix((y as u64).wrapping_mul(K2) ^ (z as u64).wrapping_mul(K0)).wrapping_mul(K2)
        } else {
            K2
        }
    }

    /// The 64-bit digest of a window of 17 to 32 bytes.
    pub fn hash64_len_17_to_32(&self) -> (digest: u64)
        requires
            17 <= self@.len() <= 32,
        ensures
            digest == spec_hash64_len_17_to_32(self@),
    {
        let mul = K2.wrapping_add(self.len() as u64 * 2);
        let a = self.fetch64(0).wrapping_mul(K1);
        let b = self.fetch64(8);
        let c = self.fetch64(self.len() - 8).wrapping_mul(mul);
        let d = self.fetch64(self.len() - 16).wrapping_mul(K2);
        hash_len_16_with_mul(
            rotate64(a.wrapping_add(b), 43).wrapping_add(rotate64(c, 30)).wrapping_add(d),
            a.wrapping_add(rotate64(b.wrapping_add(K2), 18)).wrapping_add(c),
            mul,
        )
    }

    /// The 64-bit digest of a window of 33 to 64 bytes.
    pub fn hash64_len_33_to_64(&self) -> (digest: u64)
        requires
            33 <= self@.len() <= 64,
        ensures
            digest == spec_hash64_len_33_to_64(self@),
    {
        let mul = K2.wrapping_add(self.len() as u64 * 2);
        let a = self.fetch64(0).wrapping_mul(K2);
        let b = self.fetch64(8);
        let c = self.fetch64(self.len() - 24);
        let d = self.fetch64(self.len() - 32);
        let e = self.fetch64(16).wrapping_mul(K2);
        let f = self.fetch64(24).wrapping_mul(9);
        let g = self.fetch64(self.len() - 8);
        let h = self.fetch64(self.len() - 16).wrapping_mul(mul);
        let u = rotate64(a.wrapping_add(g), 43).wrapping_add(
            rotate64(b, 30).wrapping_add(c).wrapping_mul(9),
        );
        let v = (a.wrapping_add(g) ^ d).wrapping_add(f).wrapping_add(1);
        let w = swap_bytes64((u.wrapping_add(v)).wrapping_mul(mul)).wrapping_add(h);
        let x = rotate64(e.wrapping_add(f), 42).wrapping_add(c);
        let y = (swap_bytes64((v.wrapping_add(w)).wrapping_mul(mul)).wrapping_add(g)).wrapping_mul(
            mul,
        );
        let z = e.wrapping_add(f).wrapping_add(c);
        let a = swap_bytes64((x.wrapping_add(z)).wrapping_mul(mul).wrapping_add(y)).wrapping_add(b);
        let b = shift_mix(
            (z.wrapping_add(a)).wrapping_mul(mul).wrapping_add(d).wrapping_add(h),
        ).wrapping_mul(mul);
        b.wrapping_add(x)
    }

    /// Compresses the 32 bytes at `offset` and the two seeds `a`, `b` into a
    /// pair of words.
    pub fn weak_hash_len_32_with_seeds(&self, offset: usize, a: u64, b: u64) -> (r: (u64, u64))
        requires
            offset + 32 <= self@.len(),
        ensures
            r == spec_weak_hash_at(self@, offset as int, a, b),
    {
        assert(self@.len() == self.0.len());
        weak_hash_len_32_with_seeds(
            self.fetch64(offset),
            self.fetch64(offset + 8),
            self.fetch64(offset + 16),
            self.fetch64(offset + 24),
            a,
            b,
        )
    }
}

/// Halving by a shift is division by two.
proof fn lemma_half(n: usize)
    by (bit_vector)
    ensures
        n >> 1 == n / 2,
{
}

/// On the lengths 5 to 12, `(n >> 1) & 4` is 4 from 8 up and 0 below.
proof fn lemma_third_word(n: usize)
    by (bit_vector)
    requires
        5 <= n <= 12,
    ensures
        (n >> 1) & 4 == if n >= 8 {
            4usize
        } else {
            0usize
        },
{
}

} // verus!
