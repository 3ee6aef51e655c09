//! A small map from text keys to values, kept as a list of distinct keys.
use vstd::prelude::*;
use crate::text::{chars_eq, chars_of};

verus! {

/// A map from strings to values; inserting a key that is present replaces
/// its value.
pub struct TextMap<V> {
    entries: Vec<(String, V)>,
}

/// The key of each entry.
pub open spec fn entry_keys<V>(s: Seq<(String, V)>) -> Seq<Seq<char>> {
    s.map_values(|e: (String, V)| e.0@)
}

/// An index at which key `k` is listed.
pub closed spec fn key_index<V>(s: Seq<(String, V)>, k: Seq<char>) -> int {
    choose|i: int| 0 <= i < s.len() && s[i].0@ == k
}

/// The map a list of entries with distinct keys denotes.
pub closed spec fn map_of<V>(s: Seq<(String, V)>) -> Map<Seq<char>, V> {
    Map::new(|k: Seq<char>| entry_keys(s).contains(k), |k: Seq<char>| s[key_index(s, k)].1)
}

proof fn lemma_lookup_seq<V>(s: Seq<(String, V)>, i: int)
    requires
        entry_keys(s).no_duplicates(),
        0 <= i < s.len(),
    ensures
        map_of(s).contains_key(s[i].0@),
        map_of(s)[s[i].0@] == s[i].1,
{
    let k = s[i].0@;
    assert(entry_keys(s)[i] == k);
    assert(entry_keys(s).contains(k));
    let j = key_index(s, k);
    assert(0 <= i < s.len() && s[i].0@ == k);
    assert(map_of(s)[k] == s[j].1);
    assert(entry_keys(s)[j] == k);
    assert(j == i) by {
        if j != i {
            assert(entry_keys(s)[j] != entry_keys(s)[i]);
        }
    }
}

impl<V> TextMap<V> {
    /// No key is listed twice.
    pub closed spec fn wf(&self) -> bool {
        entry_keys(self.entries@).no_duplicates()
    }

    /// The map the list denotes.
    pub closed spec fn map(&self) -> Map<Seq<char>, V> {
        map_of(self.entries@)
    }

    /// The empty map.
    pub fn new() -> (m: Self)
        ensures
            m.wf(),
            m.map() == Map::<Seq<char>, V>::empty(),
            m.map().dom().finite(),
    {
        let m = TextMap { entries: Vec::new() };
        assert(m.map() =~= Map::<Seq<char>, V>::empty());
        proof {
            m.lemma_finite();
        }
        m
    }

    fn index_of(&self, key: &[char]) -> (r: Option<usize>)
        ensures
            match r {
                Some(i) => i < self.entries@.len() && self.entries@[i as int].0@ == key@,
                None => !entry_keys(self.entries@).contains(key@),
            },
    {
        let mut i: usize = 0;
        while i < self.entries.len()
            invariant
                i <= self.entries@.len(),
                forall|j: int| 0 <= j < i ==> self.entries@[j].0@ != key@,
            decreases self.entries@.len() - i,
        {
            let k = chars_of(self.entries[i].0.as_str());
            if chars_eq(k.as_slice(), key) {
                return Some(i);
            }
            i = i + 1;
        }
        proof {
            if entry_keys(self.entries@).contains(key@) {
                let j = choose|j: int|
                    0 <= j < entry_keys(self.entries@).len() && entry_keys(self.entries@)[j]
                        == key@;
                assert(self.entries@[j].0@ == key@);
            }
        }
        None
    }

    /// Sets the value of `key`.
    pub fn insert(&mut self, key: String, value: V)
        requires
            old(self).wf(),
        ensures
            final(self).wf(),
            final(self).map() == old(self).map().insert(key@, value),
            final(self).map().dom().finite(),
    {
        let kc = chars_of(key.as_str());
        let ghost old_map = self.map();
        let ghost before = self.entries@;
        match self.index_of(kc.as_slice()) {
            Some(i) => {
                self.entries.set(i, (key, value));
                proof {
                    let after = self.entries@;
                    assert(entry_keys(after) =~= entry_keys(before));
                    assert forall|k: Seq<char>| #[trigger]
                        self.map().contains_key(k) == old_map.insert(key@, value).contains_key(
                            k,
                        ) by {
                        if k == key@ {
                            assert(entry_keys(after)[i as int] == k);
                        }
                    }
                    assert forall|k: Seq<char>| self.map().contains_key(k) implies #[trigger] self.map()[k]
                        == old_map.insert(key@, value)[k] by {
                        let j = choose|j: int| 0 <= j < after.len() && after[j].0@ == k;
                        lemma_lookup_seq(after, j);
                        if k == key@ {
                            assert(entry_keys(after)[j] == entry_keys(after)[i as int]);
                            assert(j == i as int);
                        } else {
                            assert(before[j] == after[j]);
                            assert(entry_keys(before)[j] == k);
                            assert(entry_keys(before).contains(k));
                            lemma_lookup_seq(before, j);
                        }
                    }
                    assert(self.map() =~= old_map.insert(key@, value));
                }
            },
            None => {
                self.entries.push((key, value));
                proof {
                    let after = self.entries@;
                    assert(entry_keys(after) =~= entry_keys(before).push(key@));
                    assert forall|a: int, b: int|
                        0 <= a < entry_keys(after).len() && 0 <= b < entry_keys(after).len() && a
                            != b implies entry_keys(after)[a] != entry_keys(after)[b] by {
                        if a < before.len() && b < before.len() {
                            assert(entry_keys(after)[a] == entry_keys(before)[a]);
                            assert(entry_keys(after)[b] == entry_keys(before)[b]);
                        } else if a < before.len() {
                            assert(entry_keys(before).contains(entry_keys(before)[a]));
                            assert(entry_keys(after)[a] == entry_keys(before)[a]);
                        } else if b < before.len() {
                            assert(entry_keys(before).contains(entry_keys(before)[b]));
                            assert(entry_keys(after)[b] == entry_keys(before)[b]);
                        }
                    }
                    assert forall|k: Seq<char>| #[trigger]
                        self.map().contains_key(k) == old_map.insert(key@, value).contains_key(
                            k,
                        ) by {
                        if entry_keys(after).contains(k) {
                            let j = choose|j: int|
                                0 <= j < entry_keys(after).len() && entry_keys(after)[j] == k;
                            if j < before.len() {
                                assert(entry_keys(before)[j] == k);
                            }
                        }
                        if entry_keys(before).contains(k) {
                            let j = choose|j: int|
                                0 <= j < entry_keys(before).len() && entry_keys(before)[j] == k;
                            assert(entry_keys(after)[j] == k);
                        }
                        if k == key@ {
                            assert(entry_keys(after)[before.len() as int] == k);
                        }
                    }
                    assert forall|k: Seq<char>| self.map().contains_key(k) implies #[trigger] self.map()[k]
                        == old_map.insert(key@, value)[k] by {
                        let j = choose|j: int| 0 <= j < after.len() && after[j].0@ == k;
                        lemma_lookup_seq(after, j);
                        if k == key@ {
                            lemma_lookup_seq(after, before.len() as int);
                            assert(entry_keys(after)[j] == entry_keys(after)[before.len() as int]);
                            assert(j == before.len());
                        } else {
                            assert(j < before.len());
                            assert(before[j] == after[j]);
                            assert(entry_keys(before)[j] == k);
                            lemma_lookup_seq(before, j);
                        }
                    }
                    assert(self.map() =~= old_map.insert(key@, value));
                }
            },
        }
        proof {
            self.lemma_finite();
        }
    }

    /// The value of `key`, if any.
    pub fn get(&self, key: &str) -> (r: Option<&V>)
        requires
            self.wf(),
        ensures
            match r {
                Some(v) => self.map().contains_key(key@) && *v == self.map()[key@],
                None => !self.map().contains_key(key@),
            },
    {
        let kc = chars_of(key);
        match self.index_of(kc.as_slice()) {
            Some(i) => {
                proof {
                    lemma_lookup_seq(self.entries@, i as int);
                }
                Some(&self.entries[i].1)
            },
            None => None,
        }
    }

    /// The entries, in the order their keys were first inserted.
    pub fn entries(&self) -> (r: &[(String, V)])
        ensures
            map_of(r@) == self.map(),
            entry_keys(r@).no_duplicates() == self.wf(),
    {
        self.entries.as_slice()
    }

    /// The number of keys.
    pub fn len(&self) -> (n: usize)
        requires
            self.wf(),
        ensures
            n == self.map().len(),
    {
        proof {
            self.lemma_len();
        }
        self.entries.len()
    }

    /// A map of listed entries has finitely many keys.
    pub proof fn lemma_finite(&self)
        ensures
            self.map().dom().finite(),
    {
        let ks = entry_keys(self.entries@);
        assert(self.map().dom() =~= ks.to_set());
        vstd::seq_lib::seq_to_set_is_finite(ks);
    }

    proof fn lemma_len(&self)
        requires
            self.wf(),
        ensures
            self.map().len() == self.entries@.len(),
    {
        let ks = entry_keys(self.entries@);
        ks.unique_seq_to_set();
        assert(self.map().dom() =~= ks.to_set());
    }
}

} // verus!
