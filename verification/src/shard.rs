//! A shard: one partition of the key space, a mapping from key to value.

use vstd::hash_map::StringHashMap;
use vstd::prelude::*;

verus! {

/// A mapping from text keys to text values.
pub struct Shard {
    entries: StringHashMap<String>,
}

impl View for Shard {
    type V = Map<Seq<char>, Seq<char>>;

    closed spec fn view(&self) -> Map<Seq<char>, Seq<char>> {
        Map::new(
            |k: Seq<char>| self.entries@.contains_key(k),
            |k: Seq<char>| self.entries@[k]@,
        )
    }
}

impl Shard {
    /// A shard that holds no entry.
    pub fn new() -> (shard: Self)
        ensures
            shard@ == Map::<Seq<char>, Seq<char>>::empty(),
    {
        let shard = Shard { entries: StringHashMap::new() };
        assert(shard@ =~= Map::<Seq<char>, Seq<char>>::empty());
        shard
    }

    /// Creates the entry for `key`, or overwrites the one that is there.
    pub fn set(&mut self, key: String, value: String)
        ensures
            final(self)@ == old(self)@.insert(key@, value@),
    {
        self.entries.insert(key, value);
        assert(self@ =~= old(self)@.insert(key@, value@));
    }

    /// A copy of the value stored under `key`, if there is one.
    pub fn get(&self, key: &str) -> (found: Option<String>)
        ensures
            found matches Some(v) ==> self@.contains_key(key@) && v@ == self@[key@],
            found is None ==> !self@.contains_key(key@),
    {
        match self.entries.get(key) {
            Some(value) => Some(value.clone()),
            None => None,
        }
    }

    /// Removes the entry for `key` and tells whether there was one.
    pub fn delete(&mut self, key: &str) -> (removed: bool)
        ensures
            removed == old(self)@.contains_key(key@),
            final(self)@ == old(self)@.remove(key@),
    {
        let present = self.entries.contains_key(key);
        self.entries.remove(key);
        assert(self@ =~= old(self)@.remove(key@));
        present
    }
}

} // verus!
