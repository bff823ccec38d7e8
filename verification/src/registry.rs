//! A registry of records under string identifiers: at most one record per
//! identifier, the latest one written.

use vstd::prelude::*;

verus! {

/// One record of a registry together with the identifier it is kept under.
#[derive(Debug, PartialEq, Eq)]
struct Entry<V> {
    key: String,
    value: V,
}

/// Whether no two entries carry the same identifier.
spec fn distinct_keys<V>(entries: Seq<Entry<V>>) -> bool {
    forall|i: int, j: int|
        0 <= i < j < entries.len() ==> (#[trigger] entries[i]).key@ != (#[trigger] entries[j]).key@
}

/// Whether some entry carries the identifier `key`.
spec fn has_key<V>(entries: Seq<Entry<V>>, key: Seq<char>) -> bool {
    exists|i: int| 0 <= i < entries.len() && (#[trigger] entries[i]).key@ == key
}

/// The position of an entry that carries the identifier `key`.
spec fn position<V>(entries: Seq<Entry<V>>, key: Seq<char>) -> int {
    choose|i: int| 0 <= i < entries.len() && (#[trigger] entries[i]).key@ == key
}

/// The map from identifiers to the views of the records kept under them.
spec fn as_map<V: View>(entries: Seq<Entry<V>>) -> Map<Seq<char>, V::V> {
    Map::new(
        |key: Seq<char>| has_key(entries, key),
        |key: Seq<char>| entries[position(entries, key)].value@,
    )
}

/// With distinct identifiers, the entry at position `i` is the one that the
/// map holds under its identifier.
proof fn lemma_entry_in_map<V: View>(entries: Seq<Entry<V>>, i: int)
    requires
        distinct_keys(entries),
        0 <= i < entries.len(),
    ensures
        as_map(entries).contains_key(entries[i].key@),
        as_map(entries)[entries[i].key@] == entries[i].value@,
        position(entries, entries[i].key@) == i,
{
    let key = entries[i].key@;
    assert(has_key(entries, key));
    let p = position(entries, key);
    assert(0 <= p < entries.len() && entries[p].key@ == key);
    if p < i {
        assert(entries[p].key@ != entries[i].key@);
    } else if i < p {
        assert(entries[i].key@ != entries[p].key@);
    }
}

/// Appending an entry under a new identifier inserts it into the map.
proof fn lemma_push_inserts<V: View>(entries: Seq<Entry<V>>, entry: Entry<V>)
    requires
        distinct_keys(entries),
        !has_key(entries, entry.key@),
    ensures
        distinct_keys(entries.push(entry)),
        as_map(entries.push(entry)) == as_map(entries).insert(entry.key@, entry.value@),
{
    let after = entries.push(entry);
    assert forall|i: int, j: int| 0 <= i < j < after.len() implies (#[trigger] after[i]).key@ != (
    #[trigger] after[j]).key@ by {
        if j == entries.len() {
            assert(after[i] == entries[i]);
            if entries[i].key@ == entry.key@ {
                assert(has_key(entries, entry.key@));
            }
        } else {
            assert(after[i] == entries[i] && after[j] == entries[j]);
        }
    }
    assert forall|key: Seq<char>| has_key(after, key) <==> (has_key(entries, key) || key
        == entry.key@) by {
        if has_key(entries, key) {
            let p = position(entries, key);
            assert(after[p] == entries[p]);
        }
        if key == entry.key@ {
            assert(after[entries.len() as int].key@ == key);
        }
        if has_key(after, key) {
            let p = position(after, key);
            if p < entries.len() {
                assert(after[p] == entries[p]);
            }
        }
    }
    assert forall|key: Seq<char>| has_key(after, key) implies #[trigger] as_map(after)[key]
        == as_map(entries).insert(entry.key@, entry.value@)[key] by {
        let p = position(after, key);
        lemma_entry_in_map(after, p);
        if p < entries.len() {
            assert(after[p] == entries[p]);
            lemma_entry_in_map(entries, p);
        }
    }
    assert(as_map(after) =~= as_map(entries).insert(entry.key@, entry.value@));
}

/// Replacing the entry at position `i` by one with the same identifier
/// overwrites the record in the map.
proof fn lemma_update_overwrites<V: View>(entries: Seq<Entry<V>>, i: int, entry: Entry<V>)
    requires
        distinct_keys(entries),
        0 <= i < entries.len(),
        entries[i].key@ == entry.key@,
    ensures
        distinct_keys(entries.update(i, entry)),
        as_map(entries.update(i, entry)) == as_map(entries).insert(entry.key@, entry.value@),
{
    let after = entries.update(i, entry);
    assert forall|a: int, b: int| 0 <= a < b < after.len() implies (#[trigger] after[a]).key@ != (
    #[trigger] after[b]).key@ by {
        assert(after[a].key@ == entries[a].key@);
        assert(after[b].key@ == entries[b].key@);
    }
    assert forall|key: Seq<char>| has_key(after, key) <==> has_key(entries, key) by {
        if has_key(entries, key) {
            let p = position(entries, key);
            assert(after[p].key@ == key);
        }
        if has_key(after, key) {
            let p = position(after, key);
            assert(entries[p].key@ == key);
        }
    }
    assert(has_key(entries, entry.key@));
    assert forall|key: Seq<char>| has_key(after, key) implies #[trigger] as_map(after)[key]
        == as_map(entries).insert(entry.key@, entry.value@)[key] by {
        let p = position(after, key);
        lemma_entry_in_map(after, p);
        if p != i {
            assert(after[p] == entries[p]);
            lemma_entry_in_map(entries, p);
        }
    }
    assert(as_map(after) =~= as_map(entries).insert(entry.key@, entry.value@));
}

/// Records kept under string identifiers. Its view is the map from each
/// identifier to the view of the record last written under it.
///
/// `==` compares the records position by position: two registries are equal
/// where they hold the same records in the same order of first writing.
#[derive(Debug, PartialEq, Eq)]
pub struct Registry<V> {
    entries: Vec<Entry<V>>,
}

impl<V: View> View for Registry<V> {
    type V = Map<Seq<char>, V::V>;

    closed spec fn view(&self) -> Map<Seq<char>, V::V> {
        as_map(self.entries@)
    }
}

impl<V> Registry<V> {
    #[verifier::type_invariant]
    spec fn well_formed(self) -> bool {
        distinct_keys(self.entries@)
    }
}

impl<V: View> Registry<V> {
    /// The identifiers in the order in which they were first written.
    pub closed spec fn keys(&self) -> Seq<Seq<char>> {
        Seq::new(self.entries@.len(), |i: int| self.entries@[i].key@)
    }

    /// A registry without records.
    pub fn new() -> (r: Self)
        ensures
            r@ == Map::<Seq<char>, V::V>::empty(),
            r.keys() == Seq::<Seq<char>>::empty(),
    {
        let r = Registry { entries: Vec::new() };
        assert(r@ =~= Map::<Seq<char>, V::V>::empty());
        assert(r.keys() =~= Seq::<Seq<char>>::empty());
        r
    }

    /// The number of records. The identifiers at the positions below it are
    /// exactly those that hold a record, each at one position only.
    pub fn len(&self) -> (n: usize)
        ensures
            n == self.keys().len(),
            self.keys().no_duplicates(),
            forall|key: Seq<char>| self.keys().contains(key) <==> self@.contains_key(key),
    {
        proof {
            use_type_invariant(self);
            let keys = self.keys();
            assert forall|i: int, j: int| 0 <= i < keys.len() && 0 <= j < keys.len() && i != j implies keys[i] != keys[j] by {
                if i < j {
                    assert(self.entries@[i].key@ != self.entries@[j].key@);
                } else {
                    assert(self.entries@[j].key@ != self.entries@[i].key@);
                }
            }
            assert forall|key: Seq<char>| keys.contains(key) <==> self@.contains_key(key) by {
                if keys.contains(key) {
                    let i = choose|i: int| 0 <= i < keys.len() && keys[i] == key;
                    assert(self.entries@[i].key@ == key);
                }
                if self@.contains_key(key) {
                    let p = position(self.entries@, key);
                    assert(keys[p] == key);
                }
            }
        }
        self.entries.len()
    }

    /// The position of the entry kept under `key`, if there is one.
    fn find(entries: &Vec<Entry<V>>, key: &String) -> (found: Option<usize>)
        ensures
            match found {
                Some(i) => i < entries@.len() && entries@[i as int].key@ == key@,
                None => !has_key(entries@, key@),
            },
    {
        let mut i: usize = 0;
        while i < entries.len()
            invariant
                i <= entries@.len(),
                forall|j: int| 0 <= j < i ==> (#[trigger] entries@[j]).key@ != key@,
            decreases entries@.len() - i,
        {
            if entries[i].key == *key {
                return Some(i);
            }
            i = i + 1;
        }
        None
    }

    /// The record kept under `key`, if there is one.
    pub fn get(&self, key: &str) -> (found: Option<&V>)
        ensures
            match found {
                Some(value) => self@.contains_key(key@) && value@ == self@[key@],
                None => !self@.contains_key(key@),
            },
    {
        proof {
            use_type_invariant(self);
        }
        let owned = String::from_str(key);
        match Self::find(&self.entries, &owned) {
            Some(i) => {
                proof {
                    lemma_entry_in_map(self.entries@, i as int);
                }
                Some(&self.entries[i].value)
            },
            None => None,
        }
    }

    /// Whether a record is kept under `key`.
    pub fn contains_key(&self, key: &str) -> (found: bool)
        ensures
            found == self@.contains_key(key@),
    {
        self.get(key).is_some()
    }

    /// Writes `value` under `key`, in place of the record that was kept there, if any.
    pub fn insert(&mut self, key: &str, value: V)
        ensures
            final(self)@ == old(self)@.insert(key@, value@),
    {
        proof {
            use_type_invariant(&*self);
        }
        let entry = Entry { key: String::from_str(key), value };
        let mut entries: Vec<Entry<V>> = Vec::new();
        std::mem::swap(&mut entries, &mut self.entries);
        match Self::find(&entries, &entry.key) {
            Some(i) => {
                proof {
                    lemma_update_overwrites(entries@, i as int, entry);
                }
                entries.set(i, entry);
            },
            None => {
                proof {
                    lemma_push_inserts(entries@, entry);
                }
                entries.push(entry);
            },
        }
        self.entries = entries;
    }

    /// The identifier of the record at position `i`, for walking the registry.
    pub fn key_at(&self, i: usize) -> (key: &String)
        requires
            i < self.keys().len(),
        ensures
            key@ == self.keys()[i as int],
    {
        &self.entries[i].key
    }

    /// The record at position `i`, for walking the registry.
    pub fn value_at(&self, i: usize) -> (value: &V)
        requires
            i < self.keys().len(),
        ensures
            self@.contains_key(self.keys()[i as int]),
            value@ == self@[self.keys()[i as int]],
    {
        proof {
            use_type_invariant(self);
            lemma_entry_in_map(self.entries@, i as int);
        }
        &self.entries[i].value
    }

}

} // verus!
