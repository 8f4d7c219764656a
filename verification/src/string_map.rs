//! A map from strings to values.

use vstd::prelude::*;

verus! {

/// A key of a [`StringMap`] with the value stored under it.
struct Entry<V> {
    key: String,
    value: V,
}

/// A map keyed by strings, held as a list of entries in which no key occurs twice.
pub struct StringMap<V> {
    entries: Vec<Entry<V>>,
}

/// No two of the entries have the same key.
spec fn distinct_keys<V>(entries: Seq<Entry<V>>) -> bool {
    forall|i: int, j: int|
        0 <= i < j < entries.len() ==> (#[trigger] entries[i]).key@ != (#[trigger] entries[j]).key@
}

/// Some entry has this key.
spec fn has_key<V>(entries: Seq<Entry<V>>, key: Seq<char>) -> bool {
    exists|i: int| 0 <= i < entries.len() && (#[trigger] entries[i]).key@ == key
}

/// The map that the entries stand for.
spec fn as_map<V>(entries: Seq<Entry<V>>) -> Map<Seq<char>, V> {
    Map::new(
        |key: Seq<char>| has_key(entries, key),
        |key: Seq<char>|
            entries[choose|i: int|
                0 <= i < entries.len() && (#[trigger] entries[i]).key@ == key].value,
    )
}

/// Where keys are distinct, the map holds each entry's value under its key.
proof fn lemma_entry_in_map<V>(entries: Seq<Entry<V>>, i: int)
    requires
        distinct_keys(entries),
        0 <= i < entries.len(),
    ensures
        as_map(entries).contains_key(entries[i].key@),
        as_map(entries)[entries[i].key@] == entries[i].value,
{
    let key = entries[i].key@;
    assert(has_key(entries, key));
    let j = choose|j: int| 0 <= j < entries.len() && (#[trigger] entries[j]).key@ == key;
    assert(j == i);
}

/// Only the keys of entries are in the map.
proof fn lemma_key_has_entry<V>(entries: Seq<Entry<V>>, key: Seq<char>) -> (i: int)
    requires
        as_map(entries).contains_key(key),
    ensures
        0 <= i < entries.len(),
        entries[i].key@ == key,
{
    choose|i: int| 0 <= i < entries.len() && (#[trigger] entries[i]).key@ == key
}

impl<V> View for StringMap<V> {
    type V = Map<Seq<char>, V>;

    closed spec fn view(&self) -> Map<Seq<char>, V> {
        as_map(self.entries@)
    }
}

impl<V> StringMap<V> {
    #[verifier::type_invariant]
    spec fn keys_are_distinct(self) -> bool {
        distinct_keys(self.entries@)
    }

    /// An empty map.
    pub fn new() -> (map: Self)
        ensures
            map@ == Map::<Seq<char>, V>::empty(),
    {
        let map = StringMap { entries: Vec::new() };
        assert(map@ =~= Map::empty());
        map
    }

    /// The position of the entry with this key.
    fn position(&self, key: &str) -> (found: Option<usize>)
        ensures
            match found {
                Some(i) => i < self.entries.len() && self.entries@[i as int].key@ == key@,
                None => !has_key(self.entries@, key@),
            },
    {
        let wanted = key.to_owned();
        let mut i: usize = 0;
        while i < self.entries.len()
            invariant
                i <= self.entries.len(),
                wanted@ == key@,
                forall|j: int| 0 <= j < i ==> (#[trigger] self.entries@[j]).key@ != key@,
            decreases self.entries.len() - i,
        {
            if self.entries[i].key == wanted {
                return Some(i);
            }
            i += 1;
        }
        None
    }

    /// The value stored under `key`, if there is one.
    pub fn get(&self, key: &str) -> (value: Option<&V>)
        ensures
            match value {
                Some(v) => self@.contains_key(key@) && *v == self@[key@],
                None => !self@.contains_key(key@),
            },
    {
        proof {
            use_type_invariant(self);
        }
        match self.position(key) {
            Some(i) => {
                proof {
                    lemma_entry_in_map(self.entries@, i as int);
                }
                Some(&self.entries[i].value)
            },
            None => None,
        }
    }

    /// Stores `value` under `key`, in place of what was stored there.
    pub fn insert(&mut self, key: String, value: V)
        ensures
            final(self)@ == old(self)@.insert(key@, value),
    {
        proof {
            use_type_invariant(&*self);
        }
        let ghost before = self.entries@;
        let found = self.position(key.as_str());
        let mut entries: Vec<Entry<V>> = Vec::new();
        std::mem::swap(&mut entries, &mut self.entries);
        match found {
            Some(i) => {
                entries.set(i, Entry { key, value });
            },
            None => {
                entries.push(Entry { key, value });
            },
        }
        proof {
            lemma_insert(before, entries@, key@, value, found);
        }
        self.entries = entries;
    }

    /// Takes out the value stored under `key`, if there is one.
    pub fn remove(&mut self, key: &str) -> (value: Option<V>)
        ensures
            final(self)@ == old(self)@.remove(key@),
            match value {
                Some(v) => old(self)@.contains_key(key@) && v == old(self)@[key@],
                None => !old(self)@.contains_key(key@),
            },
    {
        proof {
            use_type_invariant(&*self);
        }
        let ghost before = self.entries@;
        match self.position(key) {
            Some(i) => {
                let mut entries: Vec<Entry<V>> = Vec::new();
                std::mem::swap(&mut entries, &mut self.entries);
                let entry = entries.remove(i);
                proof {
                    lemma_remove(before, i as int);
                    assert(entries@ == before.remove(i as int));
                }
                self.entries = entries;
                Some(entry.value)
            },
            None => {
                assert(self@ =~= self@.remove(key@));
                None
            },
        }
    }
}

/// The part of a map that does not hold `value`.
pub open spec fn without_value(
    map: Map<Seq<char>, Seq<char>>,
    value: Seq<char>,
) -> Map<Seq<char>, Seq<char>> {
    Map::new(
        |key: Seq<char>| map.contains_key(key) && map[key] != value,
        |key: Seq<char>| map[key],
    )
}

/// The keys other than `besides` under which a map holds `value`.
pub open spec fn other_keys_with_value(
    map: Map<Seq<char>, Seq<char>>,
    besides: Seq<char>,
    value: Seq<char>,
) -> Set<Seq<char>> {
    map.dom().filter(|key: Seq<char>| key != besides && map[key] == value)
}

impl StringMap<String> {
    /// The map with its values read as character sequences.
    pub open spec fn texts(&self) -> Map<Seq<char>, Seq<char>> {
        self@.map_values(|value: String| value@)
    }

    /// Takes out every key under which `value` is stored.
    pub fn remove_value(&mut self, value: &str)
        ensures
            final(self).texts() == without_value(old(self).texts(), value@),
    {
        proof {
            use_type_invariant(&*self);
        }
        let unwanted = value.to_owned();
        let ghost before = self.entries@;
        let mut entries: Vec<Entry<String>> = Vec::new();
        std::mem::swap(&mut entries, &mut self.entries);
        let mut i: usize = 0;
        while i < entries.len()
            invariant
                i <= entries.len(),
                unwanted@ == value@,
                distinct_keys(entries@),
                forall|j: int| 0 <= j < i ==> (#[trigger] entries@[j]).value@ != value@,
                without_value(texts_of(entries@), value@) == without_value(
                    texts_of(before),
                    value@,
                ),
            decreases entries.len() - i,
        {
            let ghost current = entries@;
            if entries[i].value == unwanted {
                proof {
                    lemma_remove(current, i as int);
                }
                entries.remove(i);
                assert(without_value(texts_of(entries@), value@) =~= without_value(
                    texts_of(current),
                    value@,
                ));
            } else {
                i += 1;
            }
        }
        proof {
            let kept = texts_of(entries@);
            assert forall|key: Seq<char>| #[trigger] kept.contains_key(key) implies kept[key]
                != value@ by {
                let at = lemma_key_has_entry(entries@, key);
                lemma_entry_in_map(entries@, at);
            }
            assert(kept =~= without_value(kept, value@));
        }
        self.entries = entries;
    }

    /// The number of keys other than `besides` under which `value` is stored.
    pub fn count_others(&self, besides: &str, value: &str) -> (count: usize)
        ensures
            count == other_keys_with_value(self.texts(), besides@, value@).len(),
    {
        proof {
            use_type_invariant(self);
        }
        let skipped = besides.to_owned();
        let wanted = value.to_owned();
        let ghost all = other_keys_with_value(self.texts(), besides@, value@);
        let ghost mut seen: Set<Seq<char>> = Set::empty();
        let mut count: usize = 0;
        let mut i: usize = 0;
        while i < self.entries.len()
            invariant
                i <= self.entries.len(),
                count <= i,
                skipped@ == besides@,
                wanted@ == value@,
                distinct_keys(self.entries@),
                all == other_keys_with_value(self.texts(), besides@, value@),
                seen.finite(),
                seen.len() == count,
                seen.subset_of(all),
                forall|key: Seq<char>| #[trigger]
                    seen.contains(key) ==> has_key(self.entries@.take(i as int), key),
                forall|j: int|
                    0 <= j < i && all.contains((#[trigger] self.entries@[j]).key@)
                        ==> seen.contains(self.entries@[j].key@),
            decreases self.entries.len() - i,
        {
            let ghost key = self.entries@[i as int].key@;
            proof {
                lemma_entry_in_map(self.entries@, i as int);
                let sooner = self.entries@.take(i as int);
                let later = self.entries@.take(i + 1);
                assert forall|k: Seq<char>| has_key(sooner, k) implies #[trigger] has_key(
                    later,
                    k,
                ) by {
                    let j = choose|j: int| 0 <= j < sooner.len() && (#[trigger] sooner[j]).key@ == k;
                    assert(later[j].key@ == k);
                }
                assert(later[i as int].key@ == key);
                assert(has_key(later, key));
                if seen.contains(key) {
                    let j = choose|j: int|
                        0 <= j < sooner.len() && (#[trigger] sooner[j]).key@ == key;
                    assert(self.entries@[j].key@ == key);
                    assert(false);
                }
            }
            let entry = &self.entries[i];
            if entry.key != skipped && entry.value == wanted {
                proof {
                    seen = seen.insert(key);
                }
                count += 1;
            }
            i += 1;
        }
        proof {
            assert forall|key: Seq<char>| all.contains(key) implies seen.contains(key) by {
                let j = lemma_key_has_entry(self.entries@, key);
            }
            assert(seen =~= all);
        }
        count
    }
}

/// The map that the entries stand for, with its values read as character sequences.
spec fn texts_of(entries: Seq<Entry<String>>) -> Map<Seq<char>, Seq<char>> {
    as_map(entries).map_values(|value: String| value@)
}

/// Writing an entry over the one with its key, or adding it where there is none, keeps keys
/// distinct and stores the value under the key.
proof fn lemma_insert<V>(
    before: Seq<Entry<V>>,
    after: Seq<Entry<V>>,
    key: Seq<char>,
    value: V,
    found: Option<usize>,
)
    requires
        distinct_keys(before),
        match found {
            Some(i) => {
                &&& i < before.len()
                &&& before[i as int].key@ == key
                &&& after.len() == before.len()
                &&& after[i as int].key@ == key
                &&& after[i as int].value == value
                &&& forall|j: int|
                    0 <= j < before.len() && j != i ==> #[trigger] after[j] == before[j]
            },
            None => {
                &&& !has_key(before, key)
                &&& after.len() == before.len() + 1
                &&& after.last().key@ == key
                &&& after.last().value == value
                &&& forall|j: int| 0 <= j < before.len() ==> #[trigger] after[j] == before[j]
            },
        },
    ensures
        distinct_keys(after),
        as_map(after) == as_map(before).insert(key, value),
{
    let at: int = match found {
        Some(i) => i as int,
        None => before.len() as int,
    };
    assert(distinct_keys(after)) by {
        assert forall|i: int, j: int| 0 <= i < j < after.len() implies (
        #[trigger] after[i]).key@ != (#[trigger] after[j]).key@ by {
            if i != at && j != at {
                assert(after[i] == before[i] && after[j] == before[j]);
            } else if i == at {
                assert(after[j] == before[j]);
            } else {
                assert(after[i] == before[i]);
            }
        }
    }
    assert forall|k: Seq<char>| #[trigger]
        as_map(after).contains_key(k) <==> as_map(before).insert(key, value).contains_key(k) by {
        if as_map(after).contains_key(k) {
            let i = lemma_key_has_entry(after, k);
            if i != at {
                assert(after[i] == before[i]);
                lemma_entry_in_map(before, i);
            }
        }
        if as_map(before).contains_key(k) {
            let i = lemma_key_has_entry(before, k);
            if i != at {
                assert(after[i] == before[i]);
            }
            lemma_entry_in_map(after, i);
        }
        if k == key {
            lemma_entry_in_map(after, at);
        }
    }
    assert forall|k: Seq<char>| #[trigger] as_map(after).contains_key(k) implies as_map(after)[k]
        == as_map(before).insert(key, value)[k] by {
        let i = lemma_key_has_entry(after, k);
        lemma_entry_in_map(after, i);
        if i != at {
            assert(after[i] == before[i]);
            lemma_entry_in_map(before, i);
            assert(after[at].key@ == key);
        }
    }
    assert(as_map(after) =~= as_map(before).insert(key, value));
}

/// Taking out one entry takes out its key and leaves the rest.
proof fn lemma_remove<V>(before: Seq<Entry<V>>, at: int)
    requires
        distinct_keys(before),
        0 <= at < before.len(),
    ensures
        distinct_keys(before.remove(at)),
        as_map(before.remove(at)) == as_map(before).remove(before[at].key@),
        as_map(before).contains_key(before[at].key@),
        as_map(before)[before[at].key@] == before[at].value,
{
    let after = before.remove(at);
    let key = before[at].key@;
    assert(forall|i: int| 0 <= i < after.len() ==> #[trigger] after[i] == before[if i < at { i } else { i + 1 }]);
    assert(distinct_keys(after));
    lemma_entry_in_map(before, at);
    assert forall|k: Seq<char>| #[trigger]
        as_map(after).contains_key(k) <==> as_map(before).remove(key).contains_key(k) by {
        if as_map(after).contains_key(k) {
            let i = lemma_key_has_entry(after, k);
            lemma_entry_in_map(before, if i < at { i } else { i + 1 });
        }
        if as_map(before).contains_key(k) && k != key {
            let i = lemma_key_has_entry(before, k);
            lemma_entry_in_map(after, if i < at { i } else { i - 1 });
        }
    }
    assert forall|k: Seq<char>| #[trigger] as_map(after).contains_key(k) implies as_map(after)[k]
        == as_map(before).remove(key)[k] by {
        let i = lemma_key_has_entry(after, k);
        lemma_entry_in_map(after, i);
        lemma_entry_in_map(before, if i < at { i } else { i + 1 });
    }
    assert(as_map(after) =~= as_map(before).remove(key));
}

} // verus!
