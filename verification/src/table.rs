//! A small map from text keys to values, kept as a list in which no key occurs
//! twice.

use vstd::prelude::*;
use vstd::string::*;

verus! {

/// One key of a table with its value.
struct Entry<V> {
    key: String,
    value: V,
}

/// A map from text keys to values.
pub struct Table<V> {
    entries: Vec<Entry<V>>,
}

/// The map that a list of entries stands for: each key with its value.
spec fn map_of<V>(entries: Seq<Entry<V>>) -> Map<Seq<char>, V>
    decreases entries.len(),
{
    if entries.len() == 0 {
        Map::empty()
    } else {
        map_of(entries.drop_last()).insert(entries.last().key@, entries.last().value)
    }
}

/// True when no key occurs twice in a list of entries.
spec fn distinct_keys<V>(entries: Seq<Entry<V>>) -> bool {
    forall|i: int, j: int|
        0 <= i < j < entries.len() ==> (#[trigger] entries[i]).key@ != (#[trigger] entries[j]).key@
}

/// True when `key` is the key of an entry.
spec fn has_key<V>(entries: Seq<Entry<V>>, key: Seq<char>) -> bool {
    exists|i: int| 0 <= i < entries.len() && (#[trigger] entries[i]).key@ == key
}

/// The keys of the map are the keys of the entries, and the map is finite.
proof fn lemma_keys<V>(entries: Seq<Entry<V>>, key: Seq<char>)
    ensures
        map_of(entries).dom().contains(key) <==> has_key(entries, key),
        map_of(entries).dom().finite(),
    decreases entries.len(),
{
    if entries.len() > 0 {
        let earlier = entries.drop_last();
        lemma_keys(earlier, key);
        if has_key(entries, key) {
            let i = choose|i: int| 0 <= i < entries.len() && (#[trigger] entries[i]).key@ == key;
            if i < entries.len() - 1 {
                assert(earlier[i].key@ == key);
            }
        }
    }
}

/// Where no key occurs twice, each entry's key leads to that entry's value.
proof fn lemma_value<V>(entries: Seq<Entry<V>>, i: int)
    requires
        distinct_keys(entries),
        0 <= i < entries.len(),
    ensures
        map_of(entries).dom().contains(entries[i].key@),
        map_of(entries)[entries[i].key@] == entries[i].value,
    decreases entries.len(),
{
    let earlier = entries.drop_last();
    if i < entries.len() - 1 {
        assert(distinct_keys(earlier));
        lemma_value(earlier, i);
    }
}

/// Where no key occurs twice, taking an entry out takes its key out of the map
/// and leaves the rest as it was.
proof fn lemma_without<V>(entries: Seq<Entry<V>>, i: int)
    requires
        distinct_keys(entries),
        0 <= i < entries.len(),
    ensures
        distinct_keys(entries.remove(i)),
        map_of(entries.remove(i)) == map_of(entries).remove(entries[i].key@),
    decreases entries.len(),
{
    let rest = entries.remove(i);
    let earlier = entries.drop_last();
    if i == entries.len() - 1 {
        lemma_keys(earlier, entries[i].key@);
    } else {
        assert(distinct_keys(earlier));
        lemma_without(earlier, i);
        assert(rest.drop_last() =~= earlier.remove(i));
    }
}

impl<V> View for Table<V> {
    type V = Map<Seq<char>, V>;

    closed spec fn view(&self) -> Map<Seq<char>, V> {
        map_of(self.entries@)
    }
}

impl<V> Table<V> {
    /// No key occurs twice.
    #[verifier::type_invariant]
    spec fn distinct(&self) -> bool {
        distinct_keys(self.entries@)
    }

    /// A table without entries.
    pub fn new() -> (table: Table<V>)
        ensures
            table@ == Map::<Seq<char>, V>::empty(),
    {
        Table { entries: Vec::new() }
    }

    /// The index of the entry with the given key.
    fn find(&self, key: &String) -> (found: Option<usize>)
        ensures
            match found {
                Some(i) => i < self.entries@.len() && self.entries@[i as int].key@ == key@,
                None => !has_key(self.entries@, key@),
            },
    {
        let mut i: usize = 0;
        while i < self.entries.len()
            invariant
                i <= self.entries@.len(),
                forall|k: int| 0 <= k < i ==> (#[trigger] self.entries@[k]).key@ != key@,
            decreases self.entries@.len() - i,
        {
            if self.entries[i].key == *key {
                return Some(i);
            }
            i = i + 1;
        }
        None
    }

    /// Whether the table has an entry for `key`.
    pub fn contains_key(&self, key: &str) -> (present: bool)
        ensures
            present == self@.dom().contains(key@),
    {
        let wanted = String::from_str(key);
        proof {
            lemma_keys(self.entries@, key@);
        }
        self.find(&wanted).is_some()
    }

    /// The value of `key`, where the table has one.
    pub fn get(&self, key: &str) -> (value: Option<&V>)
        ensures
            match value {
                Some(v) => self@.dom().contains(key@) && self@[key@] == *v,
                None => !self@.dom().contains(key@),
            },
    {
        let wanted = String::from_str(key);
        proof {
            use_type_invariant(self);
            lemma_keys(self.entries@, key@);
        }
        match self.find(&wanted) {
            Some(i) => {
                proof {
                    lemma_value(self.entries@, i as int);
                }
                Some(&self.entries[i].value)
            },
            None => None,
        }
    }

    /// Takes the entry of `key` out of the table and hands its value back. A
    /// table without such an entry stays as it is.
    pub fn remove(&mut self, key: &str) -> (value: Option<V>)
        ensures
            final(self)@ == old(self)@.remove(key@),
            match value {
                Some(v) => old(self)@.dom().contains(key@) && old(self)@[key@] == v,
                None => !old(self)@.dom().contains(key@),
            },
    {
        let wanted = String::from_str(key);
        proof {
            use_type_invariant(&*self);
            lemma_keys(self.entries@, key@);
        }
        match self.find(&wanted) {
            Some(i) => {
                proof {
                    lemma_value(self.entries@, i as int);
                    lemma_without(self.entries@, i as int);
                }
                let mut entries: Vec<Entry<V>> = Vec::new();
                core::mem::swap(&mut self.entries, &mut entries);
                let entry = entries.remove(i);
                core::mem::swap(&mut self.entries, &mut entries);
                Some(entry.value)
            },
            None => None,
        }
    }

    /// Sets the value of `key`, and hands back the value that it had before.
    pub fn insert(&mut self, key: &str, value: V) -> (previous: Option<V>)
        ensures
            final(self)@ == old(self)@.insert(key@, value),
            match previous {
                Some(v) => old(self)@.dom().contains(key@) && old(self)@[key@] == v,
                None => !old(self)@.dom().contains(key@),
            },
    {
        let previous = self.remove(key);
        let ghost without = self.entries@;
        proof {
            use_type_invariant(&*self);
            lemma_keys(without, key@);
        }
        let mut entries: Vec<Entry<V>> = Vec::new();
        core::mem::swap(&mut self.entries, &mut entries);
        entries.push(Entry { key: String::from_str(key), value });
        assert(entries@.drop_last() =~= without);
        core::mem::swap(&mut self.entries, &mut entries);
        previous
    }
}

} // verus!
