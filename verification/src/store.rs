//! The store: a fixed number of shards behind one key space.

use crate::router::{get_shard, shard_of};
use crate::shard::Shard;
use vstd::prelude::*;

verus! {

/// What a lookup of `key` yields on the mapping `entries`.
pub open spec fn lookup(entries: Map<Seq<char>, Seq<char>>, key: Seq<char>) -> Option<Seq<char>> {
    if entries.contains_key(key) {
        Some(entries[key])
    } else {
        None
    }
}

/// A key-value store whose entries are spread over a fixed number of shards.
///
/// Its view is the mapping from every stored key to its value.
pub struct ShardedKeyValueStore {
    shards: Vec<Shard>,
    num_shards: usize,
}

impl View for ShardedKeyValueStore {
    type V = Map<Seq<char>, Seq<char>>;

    closed spec fn view(&self) -> Map<Seq<char>, Seq<char>> {
        Map::new(
            |k: Seq<char>| self.shards@[shard_of(k, self.num_shards)]@.contains_key(k),
            |k: Seq<char>| self.shards@[shard_of(k, self.num_shards)]@[k],
        )
    }
}

impl ShardedKeyValueStore {
    /// The number of shards, fixed when the store is made.
    pub closed spec fn shard_count(&self) -> usize {
        self.num_shards
    }

    /// The entries that shard `i` holds.
    pub closed spec fn shard_view(&self, i: int) -> Map<Seq<char>, Seq<char>> {
        self.shards@[i]@
    }

    /// There is at least one shard, and each shard holds only keys that the
    /// router assigns to it.
    pub closed spec fn wf(&self) -> bool {
        &&& self.num_shards >= 1
        &&& self.shards@.len() == self.num_shards
        &&& forall|i: int, k: Seq<char>|
            0 <= i < self.shards@.len() && #[trigger] self.shards@[i]@.contains_key(k)
                ==> shard_of(k, self.num_shards) == i
    }

    /// A key lives in the shard that the router names and in no other, and
    /// the store's mapping is what the shards hold together.
    pub proof fn lemma_key_in_one_shard(&self, key: Seq<char>, i: int)
        requires
            self.wf(),
            0 <= i < self.shard_count(),
        ensures
            self.shard_view(i).contains_key(key) ==> i == shard_of(key, self.shard_count()),
            i == shard_of(key, self.shard_count()) ==> lookup(self@, key) == lookup(
                self.shard_view(i),
                key,
            ),
    {
    }

    /// A store of `num_shards` empty shards.
    pub fn new(num_shards: usize) -> (store: Self)
        requires
            num_shards >= 1,
        ensures
            store.wf(),
            store.shard_count() == num_shards,
            store@ == Map::<Seq<char>, Seq<char>>::empty(),
    {
        let mut shards: Vec<Shard> = Vec::new();
        let mut i: usize = 0;
        while i < num_shards
            invariant
                i <= num_shards,
                shards@.len() == i,
                forall|j: int| 0 <= j < i ==> (#[trigger] shards@[j])@ == Map::<Seq<char>, Seq<char>>::empty(),
            decreases num_shards - i,
        {
            shards.push(Shard::new());
            i += 1;
        }
        let store = ShardedKeyValueStore { shards, num_shards };
        assert(store@ =~= Map::<Seq<char>, Seq<char>>::empty());
        store
    }

    /// The number of shards.
    pub fn num_shards(&self) -> (n: usize)
        ensures
            n == self.shard_count(),
    {
        self.num_shards
    }

    /// Gives the shards up, in the order of their indices, to a caller that
    /// guards each of them by itself.
    pub fn into_shards(self) -> (shards: Vec<Shard>)
        requires
            self.wf(),
        ensures
            shards@.len() == self.shard_count(),
            forall|i: int| 0 <= i < shards@.len() ==> (#[trigger] shards@[i])@ == self.shard_view(i),
    {
        self.shards
    }

    /// Stores `value` under `key`, in the shard that owns the key. Another
    /// shard is not touched.
    pub fn set(&mut self, key: String, value: String)
        requires
            old(self).wf(),
        ensures
            final(self).wf(),
            final(self).shard_count() == old(self).shard_count(),
            final(self)@ == old(self)@.insert(key@, value@),
            final(self).shard_view(shard_of(key@, old(self).shard_count())) == old(self).shard_view(
                shard_of(key@, old(self).shard_count()),
            ).insert(key@, value@),
            forall|j: int|
                0 <= j < old(self).shard_count() && j != shard_of(key@, old(self).shard_count())
                    ==> #[trigger] final(self).shard_view(j) == old(self).shard_view(j),
    {
        let index: usize = get_shard(key.as_str(), self.num_shards);
        self.shards[index].set(key, value);
        assert(self@ =~= old(self)@.insert(key@, value@));
    }

    /// A copy of the value stored under `key`, or `None` where the key has no
    /// entry.
    pub fn get(&self, key: String) -> (found: Option<String>)
        requires
            self.wf(),
        ensures
            found matches Some(v) ==> lookup(self@, key@) == Some(v@),
            found is None ==> lookup(self@, key@) is None,
    {
        let index: usize = get_shard(key.as_str(), self.num_shards);
        self.shards[index].get(key.as_str())
    }

    /// Removes the entry of `key`, if there is one, from the shard that owns
    /// the key, and tells whether an entry was removed. Another shard is not
    /// touched.
    pub fn delete(&mut self, key: String) -> (removed: bool)
        requires
            old(self).wf(),
        ensures
            final(self).wf(),
            final(self).shard_count() == old(self).shard_count(),
            removed == old(self)@.contains_key(key@),
            final(self)@ == old(self)@.remove(key@),
            final(self).shard_view(shard_of(key@, old(self).shard_count())) == old(self).shard_view(
                shard_of(key@, old(self).shard_count()),
            ).remove(key@),
            forall|j: int|
                0 <= j < old(self).shard_count() && j != shard_of(key@, old(self).shard_count())
                    ==> #[trigger] final(self).shard_view(j) == old(self).shard_view(j),
    {
        let index: usize = get_shard(key.as_str(), self.num_shards);
        let removed = self.shards[index].delete(key.as_str());
        assert(self@ =~= old(self)@.remove(key@));
        removed
    }
}

/// A value that was set under a key is what a lookup of that key returns,
/// whatever the key and the value are.
pub proof fn law_set_then_get(entries: Map<Seq<char>, Seq<char>>, key: Seq<char>, value: Seq<char>)
    ensures
        lookup(entries.insert(key, value), key) == Some(value),
{
}

/// Of two values set under one key, a lookup returns the later one.
pub proof fn law_set_overwrites(
    entries: Map<Seq<char>, Seq<char>>,
    key: Seq<char>,
    first: Seq<char>,
    second: Seq<char>,
)
    ensures
        lookup(entries.insert(key, first).insert(key, second), key) == Some(second),
        entries.insert(key, first).insert(key, second) == entries.insert(key, second),
{
    assert(entries.insert(key, first).insert(key, second) =~= entries.insert(key, second));
}

/// Setting one key leaves the lookup of every other key as it was.
pub proof fn law_set_keeps_other_keys(
    entries: Map<Seq<char>, Seq<char>>,
    key: Seq<char>,
    value: Seq<char>,
    other: Seq<char>,
)
    requires
        other != key,
    ensures
        lookup(entries.insert(key, value), other) == lookup(entries, other),
{
}

/// Sets of two different keys do not interfere: in either order they leave
/// the same mapping, and each key has the value that was set under it.
pub proof fn law_sets_of_different_keys_commute(
    entries: Map<Seq<char>, Seq<char>>,
    key: Seq<char>,
    value: Seq<char>,
    other: Seq<char>,
    other_value: Seq<char>,
)
    requires
        other != key,
    ensures
        entries.insert(key, value).insert(other, other_value) == entries.insert(
            other,
            other_value,
        ).insert(key, value),
        lookup(entries.insert(key, value).insert(other, other_value), key) == Some(value),
        lookup(entries.insert(key, value).insert(other, other_value), other) == Some(other_value),
{
    assert(entries.insert(key, value).insert(other, other_value) =~= entries.insert(
        other,
        other_value,
    ).insert(key, value));
}

/// After a key was deleted it is absent: a lookup finds nothing, a second
/// delete removes nothing and changes nothing. Whether the first delete
/// removed an entry depends only on whether the key was present.
pub proof fn law_delete_twice(entries: Map<Seq<char>, Seq<char>>, key: Seq<char>)
    ensures
        lookup(entries.remove(key), key) is None,
        !entries.remove(key).contains_key(key),
        entries.remove(key).remove(key) == entries.remove(key),
        !entries.contains_key(key) ==> entries.remove(key) == entries,
{
    assert(entries.remove(key).remove(key) =~= entries.remove(key));
    if !entries.contains_key(key) {
        assert(entries.remove(key) =~= entries);
    }
}

/// Deleting one key leaves the lookup of every other key as it was.
pub proof fn law_delete_keeps_other_keys(
    entries: Map<Seq<char>, Seq<char>>,
    key: Seq<char>,
    other: Seq<char>,
)
    requires
        other != key,
    ensures
        lookup(entries.remove(key), other) == lookup(entries, other),
{
}

/// A key that was never set is absent: no key is found in an empty mapping,
/// and setting or deleting other keys does not make it appear.
pub proof fn law_unset_key_is_absent(
    entries: Map<Seq<char>, Seq<char>>,
    key: Seq<char>,
    other: Seq<char>,
    value: Seq<char>,
)
    requires
        other != key,
        lookup(entries, key) is None,
    ensures
        lookup(Map::<Seq<char>, Seq<char>>::empty(), key) is None,
        lookup(entries.insert(other, value), key) is None,
        lookup(entries.remove(other), key) is None,
{
}

} // verus!
