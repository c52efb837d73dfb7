//! A map keyed by text that keeps its entries in insertion order.

use vstd::prelude::*;
use crate::text::same_text;

verus! {

/// The map that a sequence of pairs stands for: a later pair for a key
/// overrides an earlier one.
pub open spec fn pairs_to_map<V>(s: Seq<(Seq<char>, V)>) -> Map<Seq<char>, V>
    decreases s.len(),
{
    if s.len() == 0 {
        Map::empty()
    } else {
        pairs_to_map(s.drop_last()).insert(s.last().0, s.last().1)
    }
}

/// Position `i` holds the last pair whose key is `k`.
pub open spec fn last_with_key<V>(s: Seq<(Seq<char>, V)>, k: Seq<char>, i: int) -> bool {
    &&& 0 <= i < s.len()
    &&& s[i].0 == k
    &&& forall|j: int| i < j < s.len() ==> s[j].0 != k
}

/// A key is in the map exactly when some pair carries it.
pub proof fn lemma_pairs_dom<V>(s: Seq<(Seq<char>, V)>, k: Seq<char>)
    ensures
        pairs_to_map(s).contains_key(k) <==> exists|i: int| 0 <= i < s.len() && s[i].0 == k,
    decreases s.len(),
{
    if s.len() > 0 {
        lemma_pairs_dom(s.drop_last(), k);
        if pairs_to_map(s.drop_last()).contains_key(k) {
            let i = choose|i: int| 0 <= i < s.drop_last().len() && s.drop_last()[i].0 == k;
            assert(s[i].0 == k);
        }
        if exists|i: int| 0 <= i < s.len() && s[i].0 == k {
            let i = choose|i: int| 0 <= i < s.len() && s[i].0 == k;
            if i < s.len() - 1 {
                assert(s.drop_last()[i].0 == k);
            }
        }
    }
}

/// A key that some pair carries has a last pair carrying it.
pub proof fn lemma_last_exists<V>(s: Seq<(Seq<char>, V)>, k: Seq<char>, i: int)
    requires
        0 <= i < s.len(),
        s[i].0 == k,
    ensures
        exists|j: int| last_with_key(s, k, j),
    decreases s.len() - i,
{
    if !last_with_key(s, k, i) {
        let j = choose|j: int| i < j < s.len() && s[j].0 == k;
        lemma_last_exists(s, k, j);
    }
}

/// The map sends a key to the value of the last pair that carries it.
pub proof fn lemma_pairs_value<V>(s: Seq<(Seq<char>, V)>, k: Seq<char>, i: int)
    requires
        last_with_key(s, k, i),
    ensures
        pairs_to_map(s).contains_key(k),
        pairs_to_map(s)[k] == s[i].1,
    decreases s.len(),
{
    if i < s.len() - 1 {
        let t = s.drop_last();
        assert(t[i] == s[i]);
        assert(last_with_key(t, k, i));
        lemma_pairs_value(t, k, i);
    }
}

/// Replacing the value of the last pair for a key is an insertion into the map.
pub proof fn lemma_pairs_update<V>(s: Seq<(Seq<char>, V)>, k: Seq<char>, i: int, v: V)
    requires
        last_with_key(s, k, i),
    ensures
        pairs_to_map(s.update(i, (k, v))) == pairs_to_map(s).insert(k, v),
    decreases s.len(),
{
    let u = s.update(i, (k, v));
    if i == s.len() - 1 {
        assert(u.drop_last() =~= s.drop_last());
        assert(pairs_to_map(u) =~= pairs_to_map(s).insert(k, v));
    } else {
        let t = s.drop_last();
        assert(u.drop_last() =~= t.update(i, (k, v)));
        assert(t[i] == s[i]);
        assert(last_with_key(t, k, i));
        lemma_pairs_update(t, k, i, v);
        assert(pairs_to_map(u) =~= pairs_to_map(s).insert(k, v));
    }
}

/// Updating one entry updates the corresponding pair.
proof fn lemma_entries_update<V>(es: Seq<(String, V)>, i: int, x: (String, V))
    requires
        0 <= i < es.len(),
    ensures
        es.update(i, x).map_values(|e: (String, V)| (e.0@, e.1)) == es.map_values(
            |e: (String, V)| (e.0@, e.1),
        ).update(i, (x.0@, x.1)),
{
    assert(es.update(i, x).map_values(|e: (String, V)| (e.0@, e.1)) =~= es.map_values(
        |e: (String, V)| (e.0@, e.1),
    ).update(i, (x.0@, x.1)));
}

/// A map from text keys to values that keeps its entries in the order in
/// which their keys were first inserted.
#[derive(Clone, Debug)]
pub struct StrMap<V> {
    entries: Vec<(String, V)>,
}

impl<V> View for StrMap<V> {
    type V = Map<Seq<char>, V>;

    /// The map the entries stand for.
    open spec fn view(&self) -> Map<Seq<char>, V> {
        pairs_to_map(self.pairs())
    }
}

impl<V> StrMap<V> {
    /// The entries as pairs of key text and value, in order.
    pub closed spec fn pairs(&self) -> Seq<(Seq<char>, V)> {
        self.entries@.map_values(|e: (String, V)| (e.0@, e.1))
    }

    /// An empty map.
    pub fn new() -> (m: Self)
        ensures
            m.pairs() == Seq::<(Seq<char>, V)>::empty(),
            m@ == Map::<Seq<char>, V>::empty(),
    {
        let m = StrMap { entries: Vec::new() };
        assert(m.pairs() =~= Seq::<(Seq<char>, V)>::empty());
        m
    }

    /// The number of entries.
    pub fn len(&self) -> (n: usize)
        ensures
            n == self.pairs().len(),
    {
        self.entries.len()
    }

    /// Whether the map has no entries.
    pub fn is_empty(&self) -> (b: bool)
        ensures
            b == (self.pairs().len() == 0),
            b == (self@ == Map::<Seq<char>, V>::empty()),
    {
        proof {
            if self.pairs().len() > 0 {
                let p = self.pairs();
                lemma_pairs_dom(p, p[0].0);
                assert(self@.contains_key(p[0].0));
            } else {
                assert(self@ =~= Map::<Seq<char>, V>::empty());
            }
        }
        self.entries.len() == 0
    }

    /// The position of the last entry for `key`, if there is one.
    fn find(&self, key: &str) -> (r: Option<usize>)
        ensures
            match r {
                Some(i) => last_with_key(self.pairs(), key@, i as int),
                None => forall|i: int| 0 <= i < self.pairs().len() ==> self.pairs()[i].0 != key@,
            },
    {
        let mut i: usize = self.entries.len();
        while i > 0
            invariant
                i <= self.entries@.len(),
                forall|j: int| i <= j < self.pairs().len() ==> self.pairs()[j].0 != key@,
            decreases i,
        {
            if same_text(self.entries[i - 1].0.as_str(), key) {
                return Some(i - 1);
            }
            i = i - 1;
        }
        None
    }

    /// The key and value of the entry at position `i`.
    pub fn entry_at(&self, i: usize) -> (r: (&String, &V))
        requires
            i < self.pairs().len(),
        ensures
            r.0@ == self.pairs()[i as int].0,
            *r.1 == self.pairs()[i as int].1,
    {
        let e = &self.entries[i];
        (&e.0, &e.1)
    }

    /// The entries, in order, as owned pairs.
    pub fn into_entries(self) -> (v: Vec<(String, V)>)
        ensures
            v@.map_values(|e: (String, V)| (e.0@, e.1)) == self.pairs(),
            v@.len() == self.pairs().len(),
    {
        self.entries
    }

    /// The value stored under `key`.
    pub fn get(&self, key: &str) -> (r: Option<&V>)
        ensures
            match r {
                Some(v) => self@.contains_key(key@) && *v == self@[key@],
                None => !self@.contains_key(key@),
            },
    {
        proof {
            lemma_pairs_dom(self.pairs(), key@);
        }
        match self.find(key) {
            Some(i) => {
                proof {
                    lemma_pairs_value(self.pairs(), key@, i as int);
                }
                Some(&self.entries[i].1)
            },
            None => None,
        }
    }

    /// A mutable handle on the value stored under `key`; what is written
    /// through it becomes the value under `key`.
    pub fn get_mut(&mut self, key: &str) -> (r: Option<&mut V>)
        ensures
            match r {
                Some(v) => {
                    &&& old(self)@.contains_key(key@)
                    &&& *v == old(self)@[key@]
                    &&& final(self)@ == old(self)@.insert(key@, *final(v))
                    &&& final(self).pairs().len() == old(self).pairs().len()
                },
                None => !old(self)@.contains_key(key@) && *final(self) == *old(self),
            },
    {
        proof {
            lemma_pairs_dom(self.pairs(), key@);
        }
        let ghost old_pairs = self.pairs();
        match self.find(key) {
            Some(i) => {
                proof {
                    lemma_pairs_value(old_pairs, key@, i as int);
                }
                let ghost old_entries = self.entries@;
                let e = &mut self.entries[i];
                proof {
                    lemma_entries_update(old_entries, i as int, *final(e));
                }
                let r = &mut e.1;
                proof {
                    lemma_pairs_update(old_pairs, key@, i as int, *final(r));
                }
                Some(r)
            },
            None => None,
        }
    }

    /// Whether `key` is in the map.
    pub fn contains_key(&self, key: &str) -> (b: bool)
        ensures
            b == self@.contains_key(key@),
    {
        proof {
            lemma_pairs_dom(self.pairs(), key@);
        }
        self.find(key).is_some()
    }

    /// Stores `value` under `key`, replacing what was there. A new key goes
    /// after all present ones; a present key keeps its position.
    pub fn insert(&mut self, key: String, value: V)
        ensures
            final(self)@ == old(self)@.insert(key@, value),
            old(self)@.contains_key(key@) ==> final(self).pairs().len() == old(self).pairs().len(),
            !old(self)@.contains_key(key@) ==> final(self).pairs() == old(self).pairs().push(
                (key@, value),
            ),
    {
        proof {
            lemma_pairs_dom(self.pairs(), key@);
        }
        let ghost old_pairs = self.pairs();
        let ghost k = key@;
        match self.find(key.as_str()) {
            Some(i) => {
                proof {
                    lemma_pairs_update(old_pairs, k, i as int, value);
                }
                self.entries[i] = (key, value);
                proof {
                    assert(self.pairs() =~= old_pairs.update(i as int, (k, value)));
                }
            },
            None => {
                self.entries.push((key, value));
                proof {
                    assert(self.pairs() =~= old_pairs.push((k, value)));
                    assert(old_pairs.push((k, value)).drop_last() =~= old_pairs);
                }
            },
        }
    }
}

impl<V> Default for StrMap<V> {
    fn default() -> (m: Self)
        ensures
            m.pairs() == Seq::<(Seq<char>, V)>::empty(),
            m@ == Map::<Seq<char>, V>::empty(),
    {
        StrMap::new()
    }
}

impl StrMap<String> {
    /// Whether some key is mapped to the text `text`.
    pub fn any_value_is(&self, text: &str) -> (b: bool)
        ensures
            b == exists|k: Seq<char>| self@.contains_key(k) && self@[k]@ == text@,
    {
        let n = self.entries.len();
        let mut i: usize = 0;
        while i < n
            invariant
                n == self.pairs().len(),
                i <= n,
                forall|j: int|
                    0 <= j < i && last_with_key(self.pairs(), self.pairs()[j].0, j)
                        ==> self.pairs()[j].1@ != text@,
            decreases n - i,
        {
            let key = self.entries[i].0.as_str();
            let last = self.find(key);
            if last == Some(i) && same_text(self.entries[i].1.as_str(), text) {
                proof {
                    lemma_pairs_value(self.pairs(), key@, i as int);
                    assert(self.pairs()[i as int].1 == self.entries@[i as int].1);
                    assert(self@.contains_key(key@) && self@[key@]@ == text@);
                }
                return true;
            }
            proof {
                if last_with_key(self.pairs(), self.pairs()[i as int].0, i as int) {
                    assert(last == Some(i));
                }
            }
            i = i + 1;
        }
        proof {
            assert forall|k: Seq<char>| self@.contains_key(k) implies self@[k]@ != text@ by {
                lemma_pairs_dom(self.pairs(), k);
                let i0 = choose|i0: int| 0 <= i0 < self.pairs().len() && self.pairs()[i0].0 == k;
                lemma_last_exists(self.pairs(), k, i0);
                let j = choose|j: int| last_with_key(self.pairs(), k, j);
                lemma_pairs_value(self.pairs(), k, j);
            }
        }
        false
    }
}

} // verus!
