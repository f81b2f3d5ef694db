//! Shard routing: a key's hash, reduced modulo the number of shards.

use std::collections::hash_map::DefaultHasher;
use std::hash::Hasher;
use vstd::prelude::*;
use vstd::std_specs::hash::DefaultHasherAdditionalSpecFns;

verus! {

/// The sequence of byte strings that hashing a text key writes into a hasher.
///
/// It depends on the key alone; which bytes they are is left to the standard
/// library.
pub uninterp spec fn key_writes(key: Seq<char>) -> Seq<Seq<u8>>;

/// The hash of a key: what a fresh default hasher yields after the key has
/// been fed to it.
pub open spec fn key_hash(key: Seq<char>) -> u64 {
    DefaultHasher::spec_finish(key_writes(key))
}

/// The index of the shard that owns `key` in a store of `num_shards` shards.
pub open spec fn shard_of(key: Seq<char>, num_shards: usize) -> int
    recommends
        num_shards >= 1,
{
    ((key_hash(key) as usize) as int) % (num_shards as int)
}

/// Trusted: calls `std::hash::Hash::hash` for a string slice on a
/// `DefaultHasher`. The contract claims that the call appends to the hasher's
/// record of writes a sequence of writes that is determined by the key's text
/// alone, and leaves the earlier writes as they were.
#[verifier::external_body]
fn feed_key(key: &str, hasher: &mut DefaultHasher)
    ensures
        final(hasher)@ == old(hasher)@ + key_writes(key@),
{
    std::hash::Hash::hash(&key, hasher);
}

/// Every key has an owner among the shards.
pub proof fn lemma_shard_of_in_range(key: Seq<char>, num_shards: usize)
    requires
        num_shards >= 1,
    ensures
        0 <= shard_of(key, num_shards) < num_shards,
{
}

/// Routes `key` to one of `num_shards` shards.
///
/// The index is a function of the key's text and the shard count alone, so a
/// key is routed to the same shard every time.
pub fn get_shard(key: &str, num_shards: usize) -> (index: usize)
    requires
        num_shards >= 1,
    ensures
        index == shard_of(key@, num_shards),
        index < num_shards,
{
    let mut hasher = DefaultHasher::new();
    feed_key(key, &mut hasher);
    let hash: u64 = hasher.finish();
    proof {
        assert(Seq::<Seq<u8>>::empty() + key_writes(key@) =~= key_writes(key@));
    }
    (hash as usize) % num_shards
}

} // verus!
