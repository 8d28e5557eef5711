//! Deterministic, non-cryptographic 32-bit and 64-bit fingerprints of byte
//! sequences, bit-exact with the CityHash family, each proved equal to its
//! mathematical definition in [`model`].

use vstd::prelude::*;

pub mod hasher;
pub mod input;
pub mod laws;
pub mod mix;
pub mod model;
mod sealed;

pub use hasher::{CityHasher, HashMap, HashSet};

verus! {

/// A type that can be produced by the CityHash algorithm: `u32` or `u64`.
pub trait FromCityHash: sealed::Sealed {

}

/// A type that can be produced by the CityHash algorithm using a seeded
/// input: `u64`.
pub trait FromSeededCityHash: sealed::SealedSeeded {

}

impl FromCityHash for u32 {

}

impl FromCityHash for u64 {

}

impl FromSeededCityHash for u64 {

}

/// Hashes `data` using the CityHash algorithm.
///
/// The digest type `T` selects the variant: `u32` gives the 32-bit digest
/// ([`model::spec_hash32`]), `u64` the 64-bit digest ([`model::spec_hash64`]).
/// The function is total: every byte slice, the empty one included, has a
/// digest, and the digest depends on the bytes alone.
#[inline]
pub fn hash<T>(data: &[u8]) -> (digest: T) where T: FromCityHash
    ensures
        digest == T::spec_from_city_hash(data@),
{
    T::from_city_hash(data)
}

/// Hashes `data` with a seed value, using the CityHash algorithm.
///
/// With `T = u64` the digest is [`model::spec_hash64_with_seed`]: the
/// unseeded 64-bit digest less `K2`, combined with the seed.
#[inline]
pub fn hash_with_seed<T>(data: &[u8], seed: T) -> (digest: T) where T: FromSeededCityHash
    ensures
        digest == T::spec_from_city_hash_with_seed(data@, seed),
{
    T::from_city_hash_with_seed(data, seed)
}

} // verus!
