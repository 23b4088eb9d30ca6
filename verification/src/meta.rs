//! The flat attribute list that the object store keeps beside each object.

use vstd::prelude::*;

verus! {

/// The attributes of a stored object: text keys with text values.
///
/// The entries are kept in the order in which they were set; of two entries
/// with one key the later one counts.
pub struct MetaMap {
    entries: Vec<(String, String)>,
}

/// The value that the last entry with the given key holds.
pub open spec fn last_value(entries: Seq<(Seq<char>, Seq<char>)>, key: Seq<char>) -> Option<
    Seq<char>,
>
    decreases entries.len(),
{
    if entries.len() == 0 {
        None
    } else if entries.last().0 == key {
        Some(entries.last().1)
    } else {
        last_value(entries.drop_last(), key)
    }
}

/// The map that a list of entries stands for.
pub open spec fn entries_to_map(entries: Seq<(Seq<char>, Seq<char>)>) -> Map<Seq<char>, Seq<char>> {
    Map::new(
        |key: Seq<char>| last_value(entries, key) is Some,
        |key: Seq<char>| last_value(entries, key)->0,
    )
}

/// The text of each entry of a list.
pub open spec fn entry_views(entries: Seq<(String, String)>) -> Seq<(Seq<char>, Seq<char>)> {
    entries.map_values(|e: (String, String)| (e.0@, e.1@))
}

/// Setting a key at the end of a list sets it in the map.
pub proof fn lemma_push_sets(entries: Seq<(Seq<char>, Seq<char>)>, key: Seq<char>, value: Seq<char>)
    ensures
        entries_to_map(entries.push((key, value))) == entries_to_map(entries).insert(key, value),
{
    let longer = entries.push((key, value));
    assert(longer.drop_last() == entries);
    assert forall|k: Seq<char>| #[trigger] last_value(longer, k) == (if k == key {
        Some(value)
    } else {
        last_value(entries, k)
    }) by {}
    assert(entries_to_map(longer) =~= entries_to_map(entries).insert(key, value));
}

impl View for MetaMap {
    type V = Map<Seq<char>, Seq<char>>;

    closed spec fn view(&self) -> Map<Seq<char>, Seq<char>> {
        entries_to_map(entry_views(self.entries@))
    }
}

impl MetaMap {
    /// An attribute list with no entry.
    pub fn new() -> (map: MetaMap)
        ensures
            map@ == Map::<Seq<char>, Seq<char>>::empty(),
    {
        let map = MetaMap { entries: Vec::new() };
        assert(entry_views(map.entries@).len() == 0);
        assert(map@ =~= Map::<Seq<char>, Seq<char>>::empty());
        map
    }

    /// The attribute list that holds the given entries, a later entry
    /// replacing an earlier one with the same key.
    pub fn from_pairs(entries: Vec<(String, String)>) -> (map: MetaMap)
        ensures
            map@ == entries_to_map(entry_views(entries@)),
    {
        MetaMap { entries }
    }

    /// The entries of the list, in the order in which they were set.
    pub fn into_pairs(self) -> (entries: Vec<(String, String)>)
        ensures
            self@ == entries_to_map(entry_views(entries@)),
    {
        self.entries
    }

    /// Sets a key, replacing the value it had.
    pub fn insert(&mut self, key: String, value: String)
        ensures
            final(self)@ == old(self)@.insert(key@, value@),
    {
        proof {
            lemma_push_sets(entry_views(self.entries@), key@, value@);
            assert(entry_views(self.entries@.push((key, value))) == entry_views(
                self.entries@,
            ).push((key@, value@)));
        }
        self.entries.push((key, value));
    }

    /// The value of a key, if the key is set.
    pub fn get(&self, key: &str) -> (value: Option<&String>)
        ensures
            match value {
                Some(v) => self@.contains_key(key@) && self@[key@] == v@,
                None => !self@.contains_key(key@),
            },
    {
        let wanted = key.to_owned();
        let mut i = self.entries.len();
        assert(entry_views(self.entries@).subrange(0, i as int) == entry_views(self.entries@));
        while i > 0
            invariant
                0 <= i <= self.entries.len(),
                wanted@ == key@,
                last_value(entry_views(self.entries@), key@) == last_value(
                    entry_views(self.entries@).subrange(0, i as int),
                    key@,
                ),
            decreases i,
        {
            i = i - 1;
            let entry = &self.entries[i];
            proof {
                let prefix = entry_views(self.entries@).subrange(0, i + 1);
                assert(prefix.last() == (entry.0@, entry.1@));
                assert(prefix.drop_last() == entry_views(self.entries@).subrange(0, i as int));
            }
            if entry.0 == wanted {
                return Some(&entry.1);
            }
        }
        None
    }
}

} // verus!
