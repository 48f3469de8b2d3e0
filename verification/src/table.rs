//! An associative table from identifiers to payloads.
//!
//! The table holds each identifier at most once. Its view is the map from
//! the identifiers it holds to their payloads.

use vstd::prelude::*;

verus! {

/// What a map holds under `key`, if anything.
pub open spec fn lookup(m: Map<Seq<u8>, Seq<char>>, key: Seq<u8>) -> Option<Seq<char>> {
    if m.contains_key(key) {
        Some(m[key])
    } else {
        None
    }
}

/// One stored payload with the identifier it is stored under.
pub struct Entry {
    pub key: Vec<u8>,
    pub value: String,
}

/// Whether some entry of `entries` is stored under `key`.
spec fn holds_key(entries: Seq<Entry>, key: Seq<u8>) -> bool {
    exists|i: int| 0 <= i < entries.len() && (#[trigger] entries[i]).key@ == key
}

/// The position of an entry stored under `key`.
spec fn position_of(entries: Seq<Entry>, key: Seq<u8>) -> int {
    choose|i: int| 0 <= i < entries.len() && (#[trigger] entries[i]).key@ == key
}

/// Whether no two entries are stored under the same identifier.
pub open spec fn keys_distinct(entries: Seq<Entry>) -> bool {
    forall|i: int, j: int|
        0 <= i < entries.len() && 0 <= j < entries.len() && (#[trigger] entries[i]).key@ == (
        #[trigger] entries[j]).key@ ==> i == j
}

/// The map that results from storing the entries one after another, from the
/// first to the last: of two entries with the same key, the later one stays.
pub open spec fn map_of_entries(entries: Seq<Entry>) -> Map<Seq<u8>, Seq<char>>
    decreases entries.len(),
{
    if entries.len() == 0 {
        Map::empty()
    } else {
        map_of_entries(entries.drop_last()).insert(entries.last().key@, entries.last().value@)
    }
}

/// The map of a sequence of entries with distinct keys, entry by entry.
spec fn stored_map(entries: Seq<Entry>) -> Map<Seq<u8>, Seq<char>> {
    Map::new(
        |key: Seq<u8>| holds_key(entries, key),
        |key: Seq<u8>| entries[position_of(entries, key)].value@,
    )
}

/// With distinct keys, the entry at position `i` is what the map holds under
/// its key.
proof fn lemma_entry_in_map(entries: Seq<Entry>, i: int)
    requires
        keys_distinct(entries),
        0 <= i < entries.len(),
    ensures
        stored_map(entries).contains_key(entries[i].key@),
        stored_map(entries)[entries[i].key@] == entries[i].value@,
{
}

/// Adding an entry under an identifier that is not yet held keeps the keys
/// distinct and extends the map by that entry.
proof fn lemma_push_entry(entries: Seq<Entry>, entry: Entry)
    requires
        keys_distinct(entries),
        !holds_key(entries, entry.key@),
    ensures
        keys_distinct(entries.push(entry)),
        stored_map(entries.push(entry)) == stored_map(entries).insert(entry.key@, entry.value@),
{
    let longer = entries.push(entry);
    let last = entries.len() as int;
    let grown = stored_map(longer);
    let expected = stored_map(entries).insert(entry.key@, entry.value@);
    assert forall|key: Seq<u8>| grown.contains_key(key) <==> expected.contains_key(key) by {
        if holds_key(entries, key) {
            let i = position_of(entries, key);
            assert(longer[i].key@ == key);
        }
        if key == entry.key@ {
            assert(longer[last].key@ == key);
        }
    }
    assert forall|key: Seq<u8>| grown.contains_key(key) implies grown[key] == expected[key] by {
        let i = position_of(longer, key);
        lemma_entry_in_map(longer, i);
        if i < last {
            lemma_entry_in_map(entries, i);
        }
    }
}

/// Moving the last entry into position `i` and dropping the last position
/// keeps the keys distinct and takes the identifier at `i` out of the map.
proof fn lemma_swap_remove_entry(entries: Seq<Entry>, i: int)
    requires
        keys_distinct(entries),
        0 <= i < entries.len(),
    ensures
        keys_distinct(entries.update(i, entries.last()).drop_last()),
        !holds_key(entries.update(i, entries.last()).drop_last(), entries[i].key@),
        stored_map(entries.update(i, entries.last()).drop_last()) == stored_map(entries).remove(
            entries[i].key@,
        ),
{
    let shorter = entries.update(i, entries.last()).drop_last();
    let last = entries.len() - 1;
    let gone = entries[i].key@;
    // Position `j` of the shorter sequence holds what position `origin(j)`
    // of the longer one held.
    let origin = |j: int| if j == i { last } else { j };
    assert forall|j: int| 0 <= j < shorter.len() implies {
        &&& (#[trigger] shorter[j]) == entries[origin(j)]
        &&& 0 <= origin(j) < entries.len()
        &&& origin(j) != i
    } by {}
    let shrunk = stored_map(shorter);
    let expected = stored_map(entries).remove(gone);
    assert forall|key: Seq<u8>| shrunk.contains_key(key) <==> expected.contains_key(key) by {
        if holds_key(entries, key) && key != gone {
            let k = position_of(entries, key);
            if k == last {
                assert(shorter[i].key@ == key);
            } else {
                assert(shorter[k].key@ == key);
            }
        }
    }
    assert forall|key: Seq<u8>| shrunk.contains_key(key) implies shrunk[key] == expected[key] by {
        let j = position_of(shorter, key);
        lemma_entry_in_map(shorter, j);
        lemma_entry_in_map(entries, origin(j));
    }
}

/// With distinct keys, storing the entries one after another gives the map
/// that holds each entry under its key.
proof fn lemma_stored_map_is_map_of_entries(entries: Seq<Entry>)
    requires
        keys_distinct(entries),
    ensures
        stored_map(entries) == map_of_entries(entries),
    decreases entries.len(),
{
    if entries.len() > 0 {
        let front = entries.drop_last();
        let last = entries.last();
        lemma_stored_map_is_map_of_entries(front);
        lemma_push_entry(front, last);
        assert(front.push(last) =~= entries);
    }
}

/// The position in `entries` of the entry stored under `key`, if there is one.
fn find(entries: &Vec<Entry>, key: &Vec<u8>) -> (found: Option<usize>)
    ensures
        match found {
            Some(i) => i < entries@.len() && entries@[i as int].key@ == key@,
            None => !holds_key(entries@, key@),
        },
{
    let mut i: usize = 0;
    while i < entries.len()
        invariant
            i <= entries@.len(),
            forall|k: int| 0 <= k < i ==> (#[trigger] entries@[k]).key@ != key@,
        decreases entries@.len() - i,
    {
        if entries[i].key == *key {
            return Some(i);
        }
        i += 1;
    }
    None
}

/// A table from identifiers to payloads.
pub struct Table {
    entries: Vec<Entry>,
}

impl View for Table {
    type V = Map<Seq<u8>, Seq<char>>;

    closed spec fn view(&self) -> Map<Seq<u8>, Seq<char>> {
        stored_map(self.entries@)
    }
}

impl Table {
    #[verifier::type_invariant]
    spec fn well_formed(self) -> bool {
        keys_distinct(self.entries@)
    }

    /// A table that holds nothing.
    pub fn new() -> (table: Self)
        ensures
            table@ == Map::<Seq<u8>, Seq<char>>::empty(),
    {
        Table { entries: Vec::new() }
    }

    /// The payload stored under `key`, if there is one.
    pub fn get(&self, key: &Vec<u8>) -> (found: Option<String>)
        ensures
            found.deep_view() == lookup(self@, key@),
    {
        proof {
            use_type_invariant(self);
        }
        match find(&self.entries, key) {
            Some(i) => {
                proof {
                    lemma_entry_in_map(self.entries@, i as int);
                }
                Some(self.entries[i].value.clone())
            },
            None => None,
        }
    }

    /// Stores `value` under `key`, in place of what was stored there, and
    /// returns what was stored there.
    pub fn insert(&mut self, key: Vec<u8>, value: String) -> (prior: Option<String>)
        ensures
            final(self)@ == old(self)@.insert(key@, value@),
            prior.deep_view() == lookup(old(self)@, key@),
    {
        proof {
            use_type_invariant(&*self);
        }
        let mut entries: Vec<Entry> = Vec::new();
        std::mem::swap(&mut entries, &mut self.entries);
        let ghost before = entries@;
        let prior = match find(&entries, &key) {
            Some(i) => {
                proof {
                    lemma_entry_in_map(before, i as int);
                    lemma_swap_remove_entry(before, i as int);
                }
                Some(entries.swap_remove(i).value)
            },
            None => None,
        };
        proof {
            lemma_push_entry(entries@, Entry { key, value });
        }
        entries.push(Entry { key, value });
        self.entries = entries;
        prior
    }

    /// Takes out what is stored under `key` and returns it.
    pub fn remove(&mut self, key: &Vec<u8>) -> (prior: Option<String>)
        ensures
            final(self)@ == old(self)@.remove(key@),
            prior.deep_view() == lookup(old(self)@, key@),
    {
        proof {
            use_type_invariant(&*self);
        }
        let mut entries: Vec<Entry> = Vec::new();
        std::mem::swap(&mut entries, &mut self.entries);
        let ghost before = entries@;
        let prior = match find(&entries, key) {
            Some(i) => {
                proof {
                    lemma_entry_in_map(before, i as int);
                    lemma_swap_remove_entry(before, i as int);
                }
                Some(entries.swap_remove(i).value)
            },
            None => None,
        };
        self.entries = entries;
        prior
    }

    /// The table that results from storing `entries` one after another.
    pub fn from_entries(entries: Vec<Entry>) -> (table: Self)
        ensures
            table@ == map_of_entries(entries@),
    {
        let mut table = Table::new();
        let ghost all = entries@;
        for entry in iter: entries
            invariant
                iter.seq() == all,
                table@ == map_of_entries(all.take(iter.index() as int)),
        {
            proof {
                let next = all.take(iter.index() + 1);
                assert(next.drop_last() =~= all.take(iter.index() as int));
            }
            table.insert(entry.key, entry.value);
        }
        assert(all.take(all.len() as int) =~= all);
        table
    }

    /// The entries of the table, each identifier once.
    pub fn into_entries(self) -> (entries: Vec<Entry>)
        ensures
            keys_distinct(entries@),
            map_of_entries(entries@) == self@,
    {
        proof {
            use_type_invariant(&self);
            lemma_stored_map_is_map_of_entries(self.entries@);
        }
        self.entries
    }
}

} // verus!
