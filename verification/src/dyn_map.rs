//! A dictionary from text to values, in which no key occurs twice.
use vstd::prelude::*;

verus! {

/// The index at which `key` stands in `entries`.
pub open spec fn is_at<V>(entries: Seq<(String, V)>, key: Seq<char>, i: int) -> bool {
    0 <= i < entries.len() && entries[i].0@ == key
}

/// The map that a list of entries with distinct keys stands for.
pub open spec fn entries_map<V>(entries: Seq<(String, V)>) -> Map<Seq<char>, V> {
    Map::new(
        |key: Seq<char>| exists|i: int| is_at(entries, key, i),
        |key: Seq<char>| entries[choose|i: int| is_at(entries, key, i)].1,
    )
}

/// No key stands at two places.
pub open spec fn distinct_keys<V>(entries: Seq<(String, V)>) -> bool {
    forall|i: int, j: int|
        0 <= i < j < entries.len() ==> #[trigger] entries[i].0@ != #[trigger] entries[j].0@
}

/// A dictionary with text keys, kept as a list of entries.
///
/// The order of the entries is the order in which their keys were first put in.
#[derive(Debug)]
pub struct DynMap<V> {
    entries: Vec<(String, V)>,
}

impl<V> View for DynMap<V> {
    type V = Map<Seq<char>, V>;

    closed spec fn view(&self) -> Map<Seq<char>, V> {
        entries_map(self.entries@)
    }
}

impl<V> DynMap<V> {
    #[verifier::type_invariant]
    spec fn keys_are_distinct(self) -> bool {
        distinct_keys(self.entries@)
    }

    /// The empty dictionary.
    pub fn new() -> (map: Self)
        ensures
            map@ == Map::<Seq<char>, V>::empty(),
    {
        let map = DynMap { entries: Vec::new() };
        proof {
            assert forall|key: Seq<char>| !map@.contains_key(key) by {
                assert(forall|i: int| !is_at(map.entries@, key, i));
            }
            assert(map@ =~= Map::<Seq<char>, V>::empty());
        }
        map
    }

    /// Where `key` stands, if it does.
    fn position(&self, key: &str) -> (place: Option<usize>)
        ensures
            match place {
                Some(i) => is_at(self.entries@, key@, i as int),
                None => forall|i: int| !is_at(self.entries@, key@, i),
            },
    {
        let wanted = key.to_owned();
        let mut i: usize = 0;
        while i < self.entries.len()
            invariant
                i <= self.entries@.len(),
                wanted@ == key@,
                forall|j: int| 0 <= j < i ==> !is_at(self.entries@, key@, j),
            decreases self.entries@.len() - i,
        {
            if self.entries[i].0 == wanted {
                return Some(i);
            }
            i += 1;
        }
        None
    }

    /// The dictionary with `key` mapped to `value`, in place of what it was mapped to before.
    pub fn with_owned(self, key: String, value: V) -> (map: Self)
        ensures
            map@ == self@.insert(key@, value),
    {
        proof {
            use_type_invariant(&self);
        }
        let place = self.position(key.as_str());
        let ghost before = self.entries@;
        let ghost k = key@;
        let DynMap { mut entries } = self;
        match place {
            Some(i) => {
                entries.set(i, (key, value));
                proof {
                    lemma_entries_map_replace(before, k, i as int, entries@[i as int]);
                }
            },
            None => {
                entries.push((key, value));
                proof {
                    lemma_entries_map_push(before, entries@.last());
                    assert(entries@ == before.push(entries@.last()));
                }
            },
        }
        DynMap { entries }
    }

    /// What `key` is mapped to, if it is mapped at all.
    pub fn get(&self, key: &str) -> (value: Option<&V>)
        ensures
            match value {
                Some(v) => self@.contains_key(key@) && *v == self@[key@],
                None => !self@.contains_key(key@),
            },
    {
        proof {
            use_type_invariant(self);
        }
        match self.position(key) {
            Some(i) => {
                proof {
                    lemma_entries_map_at(self.entries@, i as int);
                }
                Some(&self.entries[i].1)
            },
            None => None,
        }
    }

    /// The entries, each key once.
    pub fn into_entries(self) -> (entries: Vec<(String, V)>)
        ensures
            distinct_keys(entries@),
            entries_map(entries@) == self@,
    {
        proof {
            use_type_invariant(&self);
        }
        let DynMap { entries } = self;
        entries
    }
}

/// An entry of a list with distinct keys is what its key is mapped to.
proof fn lemma_entries_map_at<V>(entries: Seq<(String, V)>, i: int)
    requires
        distinct_keys(entries),
        0 <= i < entries.len(),
    ensures
        entries_map(entries).contains_key(entries[i].0@),
        entries_map(entries)[entries[i].0@] == entries[i].1,
{
    let key = entries[i].0@;
    assert(is_at(entries, key, i));
    let j = choose|j: int| is_at(entries, key, j);
    assert(is_at(entries, key, j));
    if i < j {
        assert(entries[i].0@ != entries[j].0@);
    } else if j < i {
        assert(entries[j].0@ != entries[i].0@);
    }
}

/// Adding an entry under a new key inserts that key.
proof fn lemma_entries_map_push<V>(entries: Seq<(String, V)>, entry: (String, V))
    requires
        distinct_keys(entries),
        forall|i: int| !is_at(entries, entry.0@, i),
    ensures
        distinct_keys(entries.push(entry)),
        entries_map(entries.push(entry)) == entries_map(entries).insert(entry.0@, entry.1),
{
    let after = entries.push(entry);
    assert forall|i: int, j: int| 0 <= i < j < after.len() implies #[trigger] after[i].0@
        != #[trigger] after[j].0@ by {
        if j == entries.len() {
            assert(!is_at(entries, entry.0@, i));
        } else {
            assert(entries[i].0@ != entries[j].0@);
        }
    }
    let m1 = entries_map(after);
    let m2 = entries_map(entries).insert(entry.0@, entry.1);
    assert forall|key: Seq<char>|
        (#[trigger] m1.dom().contains(key) <==> m2.dom().contains(key)) && (m1.contains_key(key)
            ==> m1[key] == m2[key]) by {
        if m1.contains_key(key) {
            let i = choose|i: int| is_at(after, key, i);
            lemma_entries_map_at(after, i);
            if i < entries.len() {
                assert(is_at(entries, key, i));
                lemma_entries_map_at(entries, i);
            }
        }
        if entries_map(entries).contains_key(key) {
            let i = choose|i: int| is_at(entries, key, i);
            assert(is_at(after, key, i));
        }
        assert(is_at(after, entry.0@, entries.len() as int));
    }
    assert(m1.dom() =~= m2.dom());
    assert(m1 =~= m2);
}

/// Replacing an entry by one under the same key replaces what that key is mapped to.
proof fn lemma_entries_map_replace<V>(
    entries: Seq<(String, V)>,
    key: Seq<char>,
    at: int,
    entry: (String, V),
)
    requires
        distinct_keys(entries),
        is_at(entries, key, at),
        entry.0@ == key,
    ensures
        distinct_keys(entries.update(at, entry)),
        entries_map(entries.update(at, entry)) == entries_map(entries).insert(key, entry.1),
{
    let after = entries.update(at, entry);
    assert forall|i: int| 0 <= i < after.len() implies #[trigger] after[i].0@ == entries[i].0@ by {}
    assert forall|i: int, j: int| 0 <= i < j < after.len() implies #[trigger] after[i].0@
        != #[trigger] after[j].0@ by {
        assert(entries[i].0@ != entries[j].0@);
    }
    let m1 = entries_map(after);
    let m2 = entries_map(entries).insert(key, entry.1);
    assert forall|k: Seq<char>|
        (#[trigger] m1.dom().contains(k) <==> m2.dom().contains(k)) && (m1.contains_key(k) ==> m1[k]
            == m2[k]) by {
        if m1.contains_key(k) {
            let i = choose|i: int| is_at(after, k, i);
            lemma_entries_map_at(after, i);
            assert(is_at(entries, k, i));
            lemma_entries_map_at(entries, i);
            if i != at {
                if i < at {
                    assert(entries[i].0@ != entries[at].0@);
                } else {
                    assert(entries[at].0@ != entries[i].0@);
                }
            }
        }
        if entries_map(entries).contains_key(k) {
            let i = choose|i: int| is_at(entries, k, i);
            assert(is_at(after, k, i));
        }
        assert(is_at(after, key, at));
    }
    assert(m1.dom() =~= m2.dom());
    assert(m1 =~= m2);
}

} // verus!
