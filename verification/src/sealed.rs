//! The closed set of digest types. The traits are public so that the public
//! marker traits can name them, but the module is not, so no other crate can
//! add a digest type.

use crate::input::Input;
use crate::mix::hash_len_16_u64;
use crate::model::{spec_hash32, spec_hash64, spec_hash64_with_seed, K2};
use vstd::prelude::*;

verus! {

/// A type that a byte sequence can be digested into.
pub trait Sealed: Sized {
    /// The digest of `bytes` in this type.
    spec fn spec_from_city_hash(bytes: Seq<u8>) -> Self;

    /// Computes the digest of `data`.
    fn from_city_hash(data: &[u8]) -> (digest: Self)
        ensures
            digest == Self::spec_from_city_hash(data@),
    ;
}

/// A type that a byte sequence and a seed of the same type can be digested into.
pub trait SealedSeeded: Sized {
    /// The digest of `bytes` under `seed` in this type.
    spec fn spec_from_city_hash_with_seed(bytes: Seq<u8>, seed: Self) -> Self;

    /// Computes the digest of `data` under `seed`.
    fn from_city_hash_with_seed(data: &[u8], seed: Self) -> (digest: Self)
        ensures
            digest == Self::spec_from_city_hash_with_seed(data@, seed),
    ;
}

impl Sealed for u32 {
    open spec fn spec_from_city_hash(bytes: Seq<u8>) -> u32 {
        spec_hash32(bytes)
    }

    #[inline]
    fn from_city_hash(data: &[u8]) -> (digest: u32) {
        Input(data).hash32()
    }
}

impl Sealed for u64 {
    open spec fn spec_from_city_hash(bytes: Seq<u8>) -> u64 {
        spec_hash64(bytes)
    }

    #[inline]
    fn from_city_hash(data: &[u8]) -> (digest: u64) {
        Input(data).hash64()
    }
}

impl SealedSeeded for u64 {
    open spec fn spec_from_city_hash_with_seed(bytes: Seq<u8>, seed: u64) -> u64 {
        spec_hash64_with_seed(bytes, seed)
    }

    #[inline]
    fn from_city_hash_with_seed(data: &[u8], seed: u64) -> (digest: u64) {
        hash_len_16_u64(Input(data).hash64().wrapping_sub(K2), seed)
    }
}

} // verus!
