//! A string-keyed map that keeps its entries in insertion order.
use vstd::prelude::*;
use crate::text::str_eq;

verus! {

/// Whether some entry of `s` has key `k`.
pub open spec fn has_key<V>(s: Seq<(String, V)>, k: Seq<char>) -> bool {
    exists|i: int| 0 <= i < s.len() && (#[trigger] s[i]).0@ == k
}

/// Whether no two entries of `s` share a key.
pub open spec fn keys_unique<V>(s: Seq<(String, V)>) -> bool {
    forall|i: int, j: int|
        0 <= i < s.len() && 0 <= j < s.len() && i != j ==> (#[trigger] s[i]).0@ != (#[trigger] s[j]).0@
}

/// The position of the entry with key `k`.
pub open spec fn index_of<V>(s: Seq<(String, V)>, k: Seq<char>) -> int {
    choose|i: int| 0 <= i < s.len() && (#[trigger] s[i]).0@ == k
}

/// The map that the entries `s` stand for.
pub open spec fn entries_map<V>(s: Seq<(String, V)>) -> Map<Seq<char>, V> {
    Map::new(|k: Seq<char>| has_key(s, k), |k: Seq<char>| s[index_of(s, k)].1)
}

/// A map from strings to values. Its view is a `Map` keyed by the characters of the key.
pub struct KeyedStore<V> {
    entries: Vec<(String, V)>,
}

impl<V> View for KeyedStore<V> {
    type V = Map<Seq<char>, V>;

    closed spec fn view(&self) -> Map<Seq<char>, V> {
        entries_map(self.entries@)
    }
}

impl<V> KeyedStore<V> {
    #[verifier::type_invariant]
    spec fn inv(self) -> bool {
        keys_unique(self.entries@)
    }

    /// The entries, in the order their keys were first inserted.
    pub closed spec fn entry_seq(self) -> Seq<(String, V)> {
        self.entries@
    }

    /// An empty store.
    pub fn new() -> (r: Self)
        ensures
            r@ == Map::<Seq<char>, V>::empty(),
            r.entry_seq().len() == 0,
    {
        let r = KeyedStore { entries: Vec::new() };
        assert(r@ =~= Map::<Seq<char>, V>::empty());
        r
    }

    /// The number of keys.
    pub fn len(&self) -> (r: usize)
        ensures
            r == self.entry_seq().len(),
            r == self@.dom().len(),
    {
        proof {
            use_type_invariant(self);
            lemma_dom_len(self.entries@);
        }
        self.entries.len()
    }

    /// The position of `key` among the entries.
    fn find(&self, key: &str) -> (r: Option<usize>)
        ensures
            r matches Some(i) ==> i < self.entries@.len() && self.entries@[i as int].0@ == key@,
            r is None ==> !has_key(self.entries@, key@),
    {
        let mut i: usize = 0;
        while i < self.entries.len()
            invariant
                i <= self.entries@.len(),
                forall|j: int| 0 <= j < i ==> (#[trigger] self.entries@[j]).0@ != key@,
            decreases self.entries@.len() - i,
        {
            if str_eq(self.entries[i].0.as_str(), key) {
                return Some(i);
            }
            i = i + 1;
        }
        None
    }

    /// The value stored under `key`.
    pub fn get(&self, key: &str) -> (r: Option<&V>)
        ensures
            r matches Some(v) ==> self@.dom().contains(key@) && self@[key@] == *v,
            r is None ==> !self@.dom().contains(key@),
    {
        proof {
            use_type_invariant(self);
        }
        match self.find(key) {
            Some(i) => {
                proof {
                    lemma_index_of(self.entries@, i as int);
                }
                Some(&self.entries[i].1)
            },
            None => None,
        }
    }

    /// Whether `key` is stored.
    pub fn contains_key(&self, key: &str) -> (r: bool)
        ensures
            r == self@.dom().contains(key@),
    {
        self.find(key).is_some()
    }

    /// Stores `value` under `key`, replacing what was there.
    pub fn insert(&mut self, key: String, value: V)
        ensures
            final(self)@ == old(self)@.insert(key@, value),
    {
        proof {
            use_type_invariant(&*self);
        }
        let ghost old_s = self.entries@;
        let ghost k = key@;
        match self.find(key.as_str()) {
            Some(i) => {
                proof {
                    lemma_index_of(old_s, i as int);
                }
                let mut es: Vec<(String, V)> = Vec::new();
                std::mem::swap(&mut es, &mut self.entries);
                es.set(i, (key, value));
                let ghost s = es@;
                assert(keys_unique(s));
                proof {
                    lemma_index_of(s, i as int);
                    assert forall|x: Seq<char>| has_key(s, x) == has_key(old_s, x) by {
                        if has_key(old_s, x) {
                            let j = choose|j: int| 0 <= j < old_s.len() && (#[trigger] old_s[j]).0@ == x;
                            assert(s[j].0@ == x);
                        }
                        if has_key(s, x) {
                            let j = choose|j: int| 0 <= j < s.len() && (#[trigger] s[j]).0@ == x;
                            assert(old_s[j].0@ == x);
                        }
                    }
                    assert forall|x: Seq<char>| has_key(s, x) && x != k implies s[index_of(s, x)].1
                        == old_s[index_of(old_s, x)].1 by {
                        let j = index_of(s, x);
                        lemma_index_of(s, j);
                        assert(j != i);
                        assert(old_s[j].0@ == x);
                        lemma_index_of(old_s, j);
                    }
                }
                self.entries = es;
                assert(self@ =~= old(self)@.insert(k, value));
            },
            None => {
                let mut es: Vec<(String, V)> = Vec::new();
                std::mem::swap(&mut es, &mut self.entries);
                es.push((key, value));
                let ghost s = es@;
                let ghost n = old_s.len();
                assert(s[n as int].0@ == k);
                assert(keys_unique(s)) by {
                    assert forall|a: int, b: int|
                        0 <= a < s.len() && 0 <= b < s.len() && a != b implies (#[trigger] s[a]).0@
                        != (#[trigger] s[b]).0@ by {
                        if a < n && b < n {
                            assert(old_s[a] == s[a] && old_s[b] == s[b]);
                        } else if a == n {
                            assert(old_s[b] == s[b]);
                        } else {
                            assert(old_s[a] == s[a]);
                        }
                    }
                }
                proof {
                    lemma_index_of(s, n as int);
                    assert forall|x: Seq<char>| has_key(s, x) == (has_key(old_s, x) || x == k) by {
                        if has_key(old_s, x) {
                            let j = choose|j: int| 0 <= j < old_s.len() && (#[trigger] old_s[j]).0@ == x;
                            assert(s[j] == old_s[j]);
                        }
                        if has_key(s, x) && x != k {
                            let j = choose|j: int| 0 <= j < s.len() && (#[trigger] s[j]).0@ == x;
                            assert(j != n);
                            assert(old_s[j] == s[j]);
                        }
                    }
                    assert forall|x: Seq<char>| has_key(s, x) && x != k implies s[index_of(s, x)].1
                        == old_s[index_of(old_s, x)].1 by {
                        let j = index_of(s, x);
                        lemma_index_of(s, j);
                        assert(j != n);
                        assert(old_s[j] == s[j]);
                        lemma_index_of(old_s, j);
                    }
                }
                self.entries = es;
                assert(self@ =~= old(self)@.insert(k, value));
            },
        }
    }

    /// Removes `key`, giving back its value if it was stored.
    pub fn remove(&mut self, key: &str) -> (r: Option<V>)
        ensures
            final(self)@ == old(self)@.remove(key@),
            r matches Some(v) ==> old(self)@.dom().contains(key@) && old(self)@[key@] == v,
            r is None ==> !old(self)@.dom().contains(key@),
    {
        proof {
            use_type_invariant(&*self);
        }
        let ghost old_s = self.entries@;
        let ghost k = key@;
        match self.find(key) {
            Some(i) => {
                proof {
                    lemma_index_of(old_s, i as int);
                }
                let mut es: Vec<(String, V)> = Vec::new();
                std::mem::swap(&mut es, &mut self.entries);
                let (_, v) = es.remove(i);
                let ghost s = es@;
                assert(keys_unique(s)) by {
                    assert forall|a: int, b: int|
                        0 <= a < s.len() && 0 <= b < s.len() && a != b implies (#[trigger] s[a]).0@
                        != (#[trigger] s[b]).0@ by {
                        let a2 = if a < i { a } else { a + 1 };
                        let b2 = if b < i { b } else { b + 1 };
                        assert(s[a] == old_s[a2] && s[b] == old_s[b2]);
                    }
                }
                proof {
                    assert forall|x: Seq<char>| has_key(s, x) == (has_key(old_s, x) && x != k) by {
                        if has_key(old_s, x) && x != k {
                            let j = choose|j: int| 0 <= j < old_s.len() && (#[trigger] old_s[j]).0@ == x;
                            assert(j != i);
                            let j2 = if j < i { j } else { j - 1 };
                            assert(s[j2] == old_s[j]);
                        }
                        if has_key(s, x) {
                            let j = choose|j: int| 0 <= j < s.len() && (#[trigger] s[j]).0@ == x;
                            let j2 = if j < i { j } else { j + 1 };
                            assert(s[j] == old_s[j2]);
                            assert(j2 != i);
                        }
                    }
                    assert forall|x: Seq<char>| has_key(s, x) implies s[index_of(s, x)].1
                        == old_s[index_of(old_s, x)].1 by {
                        let j = index_of(s, x);
                        lemma_index_of(s, j);
                        let j2 = if j < i { j } else { j + 1 };
                        assert(s[j] == old_s[j2]);
                        lemma_index_of(old_s, j2);
                    }
                }
                self.entries = es;
                assert(self@ =~= old(self)@.remove(k));
                Some(v)
            },
            None => {
                assert(old(self)@ =~= old(self)@.remove(k));
                None
            },
        }
    }

    /// The entries in order, for iteration.
    pub fn entries(&self) -> (r: &Vec<(String, V)>)
        ensures
            r@ == self.entry_seq(),
            keys_unique(r@),
            entries_map(r@) == self@,
    {
        proof {
            use_type_invariant(self);
        }
        &self.entries
    }
}

/// With distinct keys, [`index_of`] finds the one entry with the key.
pub proof fn lemma_index_of<V>(s: Seq<(String, V)>, i: int)
    requires
        keys_unique(s),
        0 <= i < s.len(),
    ensures
        has_key(s, s[i].0@),
        index_of(s, s[i].0@) == i,
{
    assert(has_key(s, s[i].0@));
    let j = index_of(s, s[i].0@);
    assert(s[j].0@ == s[i].0@);
}

proof fn lemma_dom_len<V>(s: Seq<(String, V)>)
    requires
        keys_unique(s),
    ensures
        entries_map(s).dom().finite(),
        entries_map(s).dom().len() == s.len(),
    decreases s.len(),
{
    let m = entries_map(s);
    if s.len() == 0 {
        assert(m.dom() =~= Set::empty());
    } else {
        let t = s.drop_last();
        assert(keys_unique(t)) by {
            assert forall|a: int, b: int|
                0 <= a < t.len() && 0 <= b < t.len() && a != b implies (#[trigger] t[a]).0@
                != (#[trigger] t[b]).0@ by {
                assert(t[a] == s[a] && t[b] == s[b]);
            }
        }
        lemma_dom_len(t);
        let last = s.last().0@;
        assert(!has_key(t, last)) by {
            if has_key(t, last) {
                let j = choose|j: int| 0 <= j < t.len() && (#[trigger] t[j]).0@ == last;
                assert(s[j] == t[j]);
            }
        }
        assert forall|x: Seq<char>| has_key(s, x) == (has_key(t, x) || x == last) by {
            if has_key(t, x) {
                let j = choose|j: int| 0 <= j < t.len() && (#[trigger] t[j]).0@ == x;
                assert(s[j] == t[j]);
            }
            if has_key(s, x) && x != last {
                let j = choose|j: int| 0 <= j < s.len() && (#[trigger] s[j]).0@ == x;
                assert(j != s.len() - 1);
                assert(s[j] == t[j]);
            }
            if x == last {
                assert(s[s.len() - 1].0@ == x);
            }
        }
        assert(m.dom() =~= entries_map(t).dom().insert(last));
        assert(!entries_map(t).dom().contains(last));
    }
}

} // verus!
