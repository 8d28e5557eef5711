//! What holds of the digests and of the incremental hasher on every input,
//! stated over the definitions of [`crate::model`] and proved.

use crate::hasher::{spec_finish, spec_write, spec_write_all};
use crate::model::{spec_hash32, spec_hash64, spec_hash64_with_seed, K2};
use vstd::prelude::*;

verus! {

/// Determinism: a digest depends on the byte content alone. Two buffers of
/// the same length that hold the same byte at every index have the same
/// 32-bit, 64-bit and seeded digests, wherever they lie in memory and whatever
/// was hashed before.
pub proof fn lemma_digests_depend_on_content_alone(a: &[u8], b: &[u8], seed: u64)
    requires
        a@.len() == b@.len(),
        forall|i: int| 0 <= i < a@.len() ==> a@[i] == b@[i],
    ensures
        spec_hash32(a@) == spec_hash32(b@),
        spec_hash64(a@) == spec_hash64(b@),
        spec_hash64_with_seed(a@, seed) == spec_hash64_with_seed(b@, seed),
{
    assert(a@ =~= b@);
}

/// The 64-bit digest of the empty input is the constant `K2`.
pub proof fn lemma_empty_input_digest()
    ensures
        spec_hash64(Seq::<u8>::empty()) == K2,
{
}

/// A hasher that holds nothing reports 0.
pub proof fn lemma_fresh_hasher_reports_zero()
    ensures
        spec_finish(None) == 0,
{
}

/// One feed into an unseeded hasher gives the unseeded 64-bit digest of the
/// bytes fed.
pub proof fn lemma_first_feed_unseeded(bytes: Seq<u8>)
    ensures
        spec_finish(spec_write(None, bytes)) == spec_hash64(bytes),
{
}

/// One feed into a hasher made with `seed` gives the digest of the bytes fed
/// under that seed.
pub proof fn lemma_first_feed_seeded(seed: u64, bytes: Seq<u8>)
    ensures
        spec_finish(spec_write(Some(seed), bytes)) == spec_hash64_with_seed(bytes, seed),
{
}

/// Two feeds into an unseeded hasher give the digest of the second, seeded
/// with the digest of the first.
pub proof fn lemma_second_feed_chains(first: Seq<u8>, second: Seq<u8>)
    ensures
        spec_finish(spec_write(spec_write(None, first), second)) == spec_hash64_with_seed(
            second,
            spec_hash64(first),
        ),
{
}

/// The recurrence of the hasher: after any number of feeds the state is the
/// digest of the last feed alone, seeded with the state that the feeds before
/// it left; if they left nothing, it is the unseeded digest of the last feed.
pub proof fn lemma_feeds_chain(start: Option<u64>, feeds: Seq<Seq<u8>>)
    requires
        feeds.len() > 0,
    ensures
        spec_write_all(start, feeds) == Some(
            match spec_write_all(start, feeds.drop_last()) {
                Some(seed) => spec_hash64_with_seed(feeds.last(), seed),
                None => spec_hash64(feeds.last()),
            },
        ),
        spec_write_all(start, feeds.drop_last()) is None <==> (start is None && feeds.len() == 1),
    decreases feeds.len(),
{
    if feeds.len() > 1 {
        lemma_feeds_chain(start, feeds.drop_last());
    } else {
        assert(feeds.drop_last().len() == 0);
    }
}

} // verus!
