//! The incremental hasher: a single optional 64-bit value that each feed
//! replaces with a digest of the bytes just fed, seeded by the value before.

use crate::model::{spec_hash64, spec_hash64_with_seed};
use crate::{hash, hash_with_seed};
use vstd::prelude::*;

verus! {

/// The state after `bytes` are fed into a hasher in state `state`: the
/// unseeded digest of `bytes` if nothing was held, else their digest seeded
/// with the value held. Only the bytes of this feed enter the new state.
pub open spec fn spec_write(state: Option<u64>, bytes: Seq<u8>) -> Option<u64> {
    Some(
        match state {
            Some(seed) => spec_hash64_with_seed(bytes, seed),
            None => spec_hash64(bytes),
        },
    )
}

/// The digest that a hasher in state `state` reports: the value held, or 0
/// if none is.
pub open spec fn spec_finish(state: Option<u64>) -> u64 {
    match state {
        Some(digest) => digest,
        None => 0,
    }
}

/// The state after each of `feeds` has been fed in order into a hasher that
/// started in state `state`.
pub open spec fn spec_write_all(state: Option<u64>, feeds: Seq<Seq<u8>>) -> Option<u64>
    decreases feeds.len(),
{
    if feeds.len() == 0 {
        state
    } else {
        spec_write(spec_write_all(state, feeds.drop_last()), feeds.last())
    }
}

/// A seedable hasher and hasher builder using the CityHash algorithm.
///
/// It can be used with any collection that takes a hasher of the caller's
/// choice, such as [`HashMap`] and [`HashSet`].
///
/// Its view is its state: `None` while no seed was given and no data fed,
/// otherwise the seed or the running digest.
#[derive(Debug, Clone, Copy, Eq, PartialEq, Structural)]
pub struct CityHasher(Option<u64>);

impl View for CityHasher {
    type V = Option<u64>;

    closed spec fn view(&self) -> Option<u64> {
        self.0
    }
}

impl CityHasher {
    /// Returns a new hasher with no seed.
    pub fn new() -> (hasher: Self)
        ensures
            hasher@ == None::<u64>,
    {
        Self(None)
    }

    /// Returns a hasher that incorporates `seed` into the hashes produced.
    pub fn with_seed(seed: u64) -> (hasher: Self)
        ensures
            hasher@ == Some(seed),
    {
        Self(Some(seed))
    }
}

impl Default for CityHasher {
    /// The hasher with no seed.
    fn default() -> (hasher: Self)
        ensures
            hasher@ == None::<u64>,
    {
        Self(None)
    }
}

impl core::hash::Hasher for CityHasher {
    /// The value held, or 0 before any seed or data.
    fn finish(&self) -> (digest: u64)
        ensures
            digest == spec_finish(self@),
    {
        match self.0 {
            Some(state) => state,
            None => 0,
        }
    }

    /// Replaces the state with a digest of `bytes` alone, seeded with the
    /// state before. Feeding in pieces is therefore not feeding the
    /// concatenation.
    fn write(&mut self, bytes: &[u8])
        ensures
            final(self)@ == spec_write(old(self)@, bytes@),
    {
        self.0 = Some(
            if let Some(seed) = self.0 {
                hash_with_seed(bytes, seed)
            } else {
                hash(bytes)
            },
        );
    }
}

impl core::hash::BuildHasher for CityHasher {
    type Hasher = Self;

    /// A copy of this hasher, seed included.
    fn build_hasher(&self) -> (hasher: Self)
        ensures
            hasher@ == self@,
    {
        *self
    }
}

/// A `std::collections::HashMap` that hashes its keys using [`CityHasher`].
pub type HashMap<K, V, S = CityHasher> = std::collections::HashMap<K, V, S>;

/// A `std::collections::HashSet` that hashes its members using [`CityHasher`].
pub type HashSet<K, S = CityHasher> = std::collections::HashSet<K, S>;

} // verus!
