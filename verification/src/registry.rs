//! A registry: a mapping from names to values in which a name occurs once.
//!
//! Inserting under a name that is taken replaces the value: the last write
//! wins. Nothing is ever removed.

use vstd::prelude::*;
use vstd::string::*;

verus! {

/// One name with its value.
pub struct Entry<T> {
    pub key: String,
    pub value: T,
}

/// The mapping that a sequence of entries stands for; of two entries with one
/// name the later one counts.
pub open spec fn spec_map_of<T>(entries: Seq<Entry<T>>) -> Map<Seq<char>, T>
    decreases entries.len(),
{
    if entries.len() == 0 {
        Map::empty()
    } else {
        spec_map_of(entries.drop_last()).insert(entries.last().key@, entries.last().value)
    }
}

/// No two entries have the same name.
pub open spec fn distinct_keys<T>(entries: Seq<Entry<T>>) -> bool {
    forall|i: int, j: int| 0 <= i < j < entries.len() ==> entries[i].key@ != entries[j].key@
}

/// The names of `entries` are exactly those of its entries; with distinct
/// names each is mapped to the value of its entry, and there are as many names
/// as entries.
pub proof fn lemma_map_of<T>(entries: Seq<Entry<T>>)
    ensures
        forall|k: Seq<char>| #[trigger]
            spec_map_of(entries).contains_key(k) <==> exists|i: int|
                0 <= i < entries.len() && entries[i].key@ == k,
        distinct_keys(entries) ==> forall|i: int|
            0 <= i < entries.len() ==> spec_map_of(entries)[#[trigger] entries[i].key@]
                == entries[i].value,
        spec_map_of(entries).dom().finite(),
        distinct_keys(entries) ==> spec_map_of(entries).dom().len() == entries.len(),
    decreases entries.len(),
{
    if entries.len() > 0 {
        let rest = entries.drop_last();
        let last = entries.last();
        lemma_map_of(rest);
        assert forall|k: Seq<char>| #[trigger]
            spec_map_of(entries).contains_key(k) <==> exists|i: int|
                0 <= i < entries.len() && entries[i].key@ == k by {
            if spec_map_of(entries).contains_key(k) {
                if k == last.key@ {
                    assert(entries[entries.len() - 1].key@ == k);
                } else {
                    let i = choose|i: int| 0 <= i < rest.len() && rest[i].key@ == k;
                    assert(entries[i].key@ == k);
                }
            }
            if exists|i: int| 0 <= i < entries.len() && entries[i].key@ == k {
                let i = choose|i: int| 0 <= i < entries.len() && entries[i].key@ == k;
                if i < rest.len() {
                    assert(rest[i].key@ == k);
                }
            }
        }
        if distinct_keys(entries) {
            assert(distinct_keys(rest)) by {
                assert forall|i: int, j: int| 0 <= i < j < rest.len() implies rest[i].key@
                    != rest[j].key@ by {
                    assert(rest[i] == entries[i] && rest[j] == entries[j]);
                }
            }
            assert forall|i: int| 0 <= i < entries.len() implies spec_map_of(
                entries,
            )[#[trigger] entries[i].key@] == entries[i].value by {
                if i < rest.len() {
                    assert(rest[i] == entries[i]);
                    assert(entries[i].key@ != entries[entries.len() - 1].key@);
                }
            }
            assert(!spec_map_of(rest).contains_key(last.key@)) by {
                if spec_map_of(rest).contains_key(last.key@) {
                    let i = choose|i: int| 0 <= i < rest.len() && rest[i].key@ == last.key@;
                    assert(entries[i].key@ == entries[entries.len() - 1].key@);
                }
            }
        }
    }
}

/// Replacing the value of the entry at `at` is inserting under its name.
pub proof fn lemma_map_of_update<T>(entries: Seq<Entry<T>>, at: int, entry: Entry<T>)
    requires
        0 <= at < entries.len(),
        distinct_keys(entries),
        entry.key@ == entries[at].key@,
    ensures
        distinct_keys(entries.update(at, entry)),
        spec_map_of(entries.update(at, entry)) == spec_map_of(entries).insert(
            entry.key@,
            entry.value,
        ),
{
    let updated = entries.update(at, entry);
    lemma_map_of(entries);
    lemma_map_of(updated);
    let left = spec_map_of(updated);
    let right = spec_map_of(entries).insert(entry.key@, entry.value);
    assert forall|k: Seq<char>| left.contains_key(k) <==> right.contains_key(k) by {
        if left.contains_key(k) {
            let i = choose|i: int| 0 <= i < updated.len() && updated[i].key@ == k;
            assert(entries[i].key@ == k);
        }
        if right.contains_key(k) && k != entry.key@ {
            let i = choose|i: int| 0 <= i < entries.len() && entries[i].key@ == k;
            assert(updated[i].key@ == k);
        }
        if k == entry.key@ {
            assert(updated[at].key@ == k);
        }
    }
    assert forall|k: Seq<char>| left.contains_key(k) implies left[k] == right[k] by {
        let i = choose|i: int| 0 <= i < updated.len() && updated[i].key@ == k;
        assert(left[updated[i].key@] == updated[i].value);
        if i != at {
            assert(spec_map_of(entries)[entries[i].key@] == entries[i].value);
        }
    }
    assert(left =~= right);
}

/// A mapping from names to values of type `T`.
pub struct Registry<T> {
    entries: Vec<Entry<T>>,
}

impl<T> Registry<T> {
    /// The registry is well formed: no name occurs twice among its entries.
    pub closed spec fn wf(&self) -> bool {
        distinct_keys(self.entries@)
    }

    /// The mapping that the registry holds.
    pub closed spec fn map(&self) -> Map<Seq<char>, T> {
        spec_map_of(self.entries@)
    }

    /// The registry without entries.
    pub fn new() -> (r: Registry<T>)
        ensures
            r.wf(),
            r.map() == Map::<Seq<char>, T>::empty(),
    {
        Registry { entries: Vec::new() }
    }

    /// The number of names.
    pub fn len(&self) -> (r: usize)
        requires
            self.wf(),
        ensures
            self.map().dom().finite(),
            r == self.map().dom().len(),
    {
        proof {
            lemma_map_of(self.entries@);
        }
        self.entries.len()
    }

    /// Where `key` stands among the entries.
    fn position(&self, key: &String) -> (r: Option<usize>)
        ensures
            match r {
                Some(i) => i < self.entries@.len() && self.entries@[i as int].key@ == key@,
                None => forall|i: int| 0 <= i < self.entries@.len() ==> self.entries@[i].key@ != key@,
            },
    {
        let mut i: usize = 0;
        while i < self.entries.len()
            invariant
                i <= self.entries@.len(),
                forall|k: int| 0 <= k < i ==> self.entries@[k].key@ != key@,
            decreases self.entries.len() - i,
        {
            if self.entries[i].key == *key {
                return Some(i);
            }
            i += 1;
        }
        None
    }

    /// The value registered under `key`, if there is one.
    pub fn get(&self, key: &str) -> (r: Option<&T>)
        requires
            self.wf(),
        ensures
            match r {
                Some(v) => self.map().contains_key(key@) && *v == self.map()[key@],
                None => !self.map().contains_key(key@),
            },
    {
        proof {
            lemma_map_of(self.entries@);
        }
        match self.position(&String::from_str(key)) {
            Some(i) => Some(&self.entries[i].value),
            None => None,
        }
    }

    /// Whether a value is registered under `key`.
    pub fn contains_key(&self, key: &str) -> (r: bool)
        requires
            self.wf(),
        ensures
            r == self.map().contains_key(key@),
    {
        self.get(key).is_some()
    }

    /// Registers `value` under `key`. A value already registered under `key`
    /// is replaced; the result says whether there was one.
    pub fn insert(&mut self, key: &str, value: T) -> (replaced: bool)
        requires
            old(self).wf(),
        ensures
            final(self).wf(),
            final(self).map() == old(self).map().insert(key@, value),
            replaced == old(self).map().contains_key(key@),
    {
        proof {
            lemma_map_of(self.entries@);
        }
        let owned = String::from_str(key);
        match self.position(&owned) {
            Some(i) => {
                let entry = Entry { key: owned, value };
                proof {
                    lemma_map_of_update(self.entries@, i as int, entry);
                }
                self.entries.set(i, entry);
                true
            },
            None => {
                let entry = Entry { key: owned, value };
                let ghost before = self.entries@;
                self.entries.push(entry);
                assert(self.entries@.drop_last() =~= before);
                false
            },
        }
    }
}

impl<T: Clone> Clone for Registry<T> {
    /// A registry with the same names, each with a clone of its value.
    fn clone(&self) -> (r: Registry<T>)
        ensures
            self.wf() ==> {
                &&& r.wf()
                &&& r.map().dom() == self.map().dom()
                &&& forall|k: Seq<char>|
                    self.map().contains_key(k) ==> cloned(self.map()[k], #[trigger] r.map()[k])
            },
    {
        let mut entries: Vec<Entry<T>> = Vec::new();
        let mut i: usize = 0;
        while i < self.entries.len()
            invariant
                i <= self.entries@.len(),
                entries@.len() == i,
                forall|k: int| 0 <= k < i ==> (#[trigger] entries@[k]).key@ == self.entries@[k].key@,
                forall|k: int|
                    0 <= k < i ==> cloned(self.entries@[k].value, (#[trigger] entries@[k]).value),
            decreases self.entries.len() - i,
        {
            let key = self.entries[i].key.clone();
            let value = self.entries[i].value.clone();
            entries.push(Entry { key, value });
            i += 1;
        }
        let r = Registry { entries };
        proof {
            if self.wf() {
                lemma_map_of(self.entries@);
                lemma_map_of(r.entries@);
                assert(r.map().dom() =~= self.map().dom()) by {
                    assert forall|k: Seq<char>| r.map().contains_key(k) <==> self.map().contains_key(
                        k,
                    ) by {
                        if r.map().contains_key(k) {
                            let i = choose|i: int| 0 <= i < r.entries@.len() && r.entries@[i].key@ == k;
                            assert(self.entries@[i].key@ == k);
                        }
                        if self.map().contains_key(k) {
                            let i = choose|i: int|
                                0 <= i < self.entries@.len() && self.entries@[i].key@ == k;
                            assert(r.entries@[i].key@ == k);
                        }
                    }
                }
                assert forall|k: Seq<char>| self.map().contains_key(k) implies cloned(
                    self.map()[k],
                    #[trigger] r.map()[k],
                ) by {
                    let i = choose|i: int| 0 <= i < self.entries@.len() && self.entries@[i].key@ == k;
                    assert(self.map()[self.entries@[i].key@] == self.entries@[i].value);
                    assert(r.map()[r.entries@[i].key@] == r.entries@[i].value);
                }
            }
        }
        r
    }
}

} // verus!
