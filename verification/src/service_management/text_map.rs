//! A map keyed by text, standing for the string-keyed maps of resource
//! attributes and request payloads. Each key occurs at most once; the
//! iteration order of the entries carries no meaning.
use vstd::prelude::*;
use vstd::string::*;

use crate::text::text_eq;

verus! {

#[derive(Debug, Clone)]
pub struct TextMap<V> {
    entries: Vec<(String, V)>,
}

/// No key occurs twice among `e`.
pub open spec fn keys_distinct<V>(e: Seq<(String, V)>) -> bool {
    forall|i: int, j: int|
        0 <= i < e.len() && 0 <= j < e.len() && i != j ==> #[trigger] e[i].0@ != #[trigger] e[j].0@
}

/// Whether some entry of `e` has key `k`.
pub open spec fn has_key<V>(e: Seq<(String, V)>, k: Seq<char>) -> bool {
    exists|i: int| 0 <= i < e.len() && #[trigger] e[i].0@ == k
}

/// The position of the entry with key `k`.
pub open spec fn key_index<V>(e: Seq<(String, V)>, k: Seq<char>) -> int {
    choose|i: int| 0 <= i < e.len() && #[trigger] e[i].0@ == k
}

/// The map that the entries of `e` spell out.
pub open spec fn entries_map<V>(e: Seq<(String, V)>) -> Map<Seq<char>, V> {
    Map::new(|k: Seq<char>| has_key(e, k), |k: Seq<char>| e[key_index(e, k)].1)
}

proof fn lemma_key_index<V>(e: Seq<(String, V)>, i: int)
    requires
        keys_distinct(e),
        0 <= i < e.len(),
    ensures
        has_key(e, e[i].0@),
        key_index(e, e[i].0@) == i,
        entries_map(e).contains_key(e[i].0@),
        entries_map(e)[e[i].0@] == e[i].1,
{
    assert(has_key(e, e[i].0@));
    let j = key_index(e, e[i].0@);
    assert(0 <= j < e.len() && e[j].0@ == e[i].0@);
}

impl<V> View for TextMap<V> {
    type V = Map<Seq<char>, V>;

    closed spec fn view(&self) -> Map<Seq<char>, V> {
        entries_map(self.entries@)
    }
}

impl<V> TextMap<V> {
    /// Keys are distinct.
    pub closed spec fn wf(&self) -> bool {
        keys_distinct(self.entries@)
    }

    /// The empty map.
    pub fn new() -> (m: Self)
        ensures
            m.wf(),
            m@ == Map::<Seq<char>, V>::empty(),
    {
        let m = TextMap { entries: Vec::new() };
        assert(m@ =~= Map::<Seq<char>, V>::empty());
        m
    }

    /// Number of keys.
    pub fn len(&self) -> (n: usize)
        requires
            self.wf(),
        ensures
            n == self@.len(),
    {
        proof {
            self.lemma_len();
        }
        self.entries.len()
    }

    proof fn lemma_len(&self)
        requires
            self.wf(),
        ensures
            self@.len() == self.entries@.len(),
            self@.dom().finite(),
    {
        let e = self.entries@;
        let f = |i: int| e[i].0@;
        let idx = Set::new(|i: int| 0 <= i < e.len());
        assert(self@.dom() =~= idx.map(f)) by {
            assert forall|k: Seq<char>| self@.dom().contains(k) implies idx.map(f).contains(k) by {
                let i = key_index(e, k);
                assert(idx.contains(i) && f(i) == k);
            }
            assert forall|k: Seq<char>| idx.map(f).contains(k) implies self@.dom().contains(k) by {
                let i = choose|i: int| idx.contains(i) && f(i) == k;
                assert(e[i].0@ == k);
            }
        }
        vstd::set_lib::lemma_int_range(0, e.len() as int);
        assert(idx =~= vstd::set_lib::set_int_range(0, e.len() as int));
        assert(vstd::relations::injective_on(f, idx));
        vstd::set_lib::lemma_map_size(idx, idx.map(f), f);
    }

    /// The value stored under `key`, if any.
    pub fn get(&self, key: &str) -> (r: Option<&V>)
        requires
            self.wf(),
        ensures
            r matches Some(v) ==> self@.contains_key(key@) && *v == self@[key@],
            r is None ==> !self@.contains_key(key@),
    {
        let n = self.entries.len();
        let mut i: usize = 0;
        while i < n
            invariant
                self.wf(),
                n == self.entries@.len(),
                0 <= i <= n,
                forall|k: int| 0 <= k < i ==> self.entries@[k].0@ != key@,
            decreases n - i,
        {
            if text_eq(self.entries[i].0.as_str(), key) {
                proof {
                    lemma_key_index(self.entries@, i as int);
                }
                return Some(&self.entries[i].1);
            }
            i = i + 1;
        }
        None
    }

    /// Whether `key` has a value.
    pub fn contains_key(&self, key: &str) -> (r: bool)
        requires
            self.wf(),
        ensures
            r == self@.contains_key(key@),
    {
        self.get(key).is_some()
    }

    /// Stores `value` under `key`, replacing any earlier value; `BTreeMap::insert`.
    pub fn insert(&mut self, key: String, value: V)
        requires
            old(self).wf(),
        ensures
            final(self).wf(),
            final(self)@ == old(self)@.insert(key@, value),
    {
        let ghost e0 = self.entries@;
        let n = self.entries.len();
        let mut i: usize = 0;
        while i < n
            invariant
                self.entries@ == e0,
                e0 == old(self).entries@,
                keys_distinct(e0),
                n == e0.len(),
                0 <= i <= n,
                forall|k: int| 0 <= k < i ==> e0[k].0@ != key@,
            decreases n - i,
        {
            if text_eq(self.entries[i].0.as_str(), key.as_str()) {
                let ghost kv = key@;
                self.entries.set(i, (key, value));
                proof {
                    let e1 = self.entries@;
                    assert(e1 == e0.update(i as int, e1[i as int]));
                    assert(keys_distinct(e1)) by {
                        assert forall|a: int, b: int|
                            0 <= a < e1.len() && 0 <= b < e1.len() && a != b implies #[trigger] e1[a].0@
                            != #[trigger] e1[b].0@ by {
                            if a == i {
                                assert(e1[b] == e0[b]);
                                assert(e0[i as int].0@ == kv);
                            } else if b == i {
                                assert(e1[a] == e0[a]);
                                assert(e0[i as int].0@ == kv);
                            } else {
                                assert(e1[a] == e0[a] && e1[b] == e0[b]);
                            }
                        }
                    }
                    let m0 = entries_map(e0);
                    let m1 = entries_map(e1);
                    let target = m0.insert(kv, e1[i as int].1);
                    assert(e1[i as int].0@ == kv);
                    assert(e1[i as int].1 == value);
                    assert forall|q: Seq<char>| #[trigger] m1.contains_key(q) == target.contains_key(q) by {
                        if has_key(e1, q) {
                            let j = key_index(e1, q);
                            if j != i {
                                assert(e0[j] == e1[j]);
                                assert(has_key(e0, q));
                            }
                        }
                        if q == kv {
                            assert(e1[i as int].0@ == q);
                        } else if has_key(e0, q) {
                            let j = key_index(e0, q);
                            assert(e0[j] == e1[j]);
                            assert(e1[j].0@ == q);
                        }
                    }
                    assert forall|q: Seq<char>| #[trigger] m1.contains_key(q) implies m1[q] == target[q] by {
                        let j = key_index(e1, q);
                        lemma_key_index(e1, j);
                        if j != i {
                            assert(e0[j] == e1[j]);
                            lemma_key_index(e0, j);
                        }
                    }
                    assert(m1 =~= target);
                }
                return;
            }
            i = i + 1;
        }
        let ghost kv = key@;
        self.entries.push((key, value));
        proof {
            let e1 = self.entries@;
            assert(e1 == e0.push(e1[n as int]));
            assert(keys_distinct(e1)) by {
                assert forall|a: int, b: int|
                    0 <= a < e1.len() && 0 <= b < e1.len() && a != b implies #[trigger] e1[a].0@
                    != #[trigger] e1[b].0@ by {
                    if a == n {
                        assert(e1[b] == e0[b]);
                    } else if b == n {
                        assert(e1[a] == e0[a]);
                    } else {
                        assert(e1[a] == e0[a] && e1[b] == e0[b]);
                    }
                }
            }
            let m0 = entries_map(e0);
            let m1 = entries_map(e1);
            let target = m0.insert(kv, e1[n as int].1);
            assert(e1[n as int].0@ == kv);
            assert forall|q: Seq<char>| #[trigger] m1.contains_key(q) == target.contains_key(q) by {
                if has_key(e1, q) {
                    let j = key_index(e1, q);
                    if j != n {
                        assert(e0[j] == e1[j]);
                        assert(has_key(e0, q));
                    }
                }
                if q == kv {
                    assert(e1[n as int].0@ == q);
                } else if has_key(e0, q) {
                    let j = key_index(e0, q);
                    assert(e0[j] == e1[j]);
                    assert(e1[j].0@ == q);
                }
            }
            assert forall|q: Seq<char>| #[trigger] m1.contains_key(q) implies m1[q] == target[q] by {
                let j = key_index(e1, q);
                lemma_key_index(e1, j);
                if j != n {
                    assert(e0[j] == e1[j]);
                    lemma_key_index(e0, j);
                }
            }
            assert(m1 =~= target);
        }
    }

    /// The entries, for handing the map to code outside the library.
    pub fn entries(&self) -> (r: &Vec<(String, V)>)
        requires
            self.wf(),
        ensures
            r@.len() == self@.len(),
            forall|i: int|
                0 <= i < r@.len() ==> self@.contains_key(#[trigger] r@[i].0@) && self@[r@[i].0@]
                    == r@[i].1,
            forall|k: Seq<char>| #[trigger]
                self@.contains_key(k) ==> exists|i: int| 0 <= i < r@.len() && #[trigger] r@[i].0@ == k,
    {
        proof {
            self.lemma_len();
            assert forall|i: int| 0 <= i < self.entries@.len() implies self@.contains_key(
                #[trigger] self.entries@[i].0@,
            ) && self@[self.entries@[i].0@] == self.entries@[i].1 by {
                lemma_key_index(self.entries@, i);
            }
        }
        &self.entries
    }
}

/// Inserts `key` with the text of `value` when there is a value; does nothing otherwise.
pub fn insert_attr(attributes: &mut TextMap<String>, key: &str, value: Option<String>)
    requires
        old(attributes).wf(),
    ensures
        final(attributes).wf(),
        final(attributes)@ == (match value {
            Some(v) => old(attributes)@.insert(key@, v),
            None => old(attributes)@,
        }),
{
    if let Some(v) = value {
        attributes.insert(String::from_str(key), v);
    }
}

} // verus!
