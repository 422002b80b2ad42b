//! A small map kept as a vector of (key, value) pairs with distinct keys,
//! in insertion order.

use vstd::prelude::*;
use vstd::string::*;
use crate::text::str_eq;

verus! {

/// Keys a table can compare.
pub trait TableKey: Sized {
    type KeyView;

    spec fn key_view(&self) -> Self::KeyView;

    fn same_key(&self, other: &Self) -> (r: bool)
        ensures
            r == (self.key_view() == other.key_view()),
    ;
}

impl TableKey for u128 {
    type KeyView = u128;

    open spec fn key_view(&self) -> u128 {
        *self
    }

    fn same_key(&self, other: &Self) -> (r: bool) {
        *self == *other
    }
}

impl TableKey for String {
    type KeyView = Seq<char>;

    open spec fn key_view(&self) -> Seq<char> {
        self@
    }

    fn same_key(&self, other: &Self) -> (r: bool) {
        str_eq(self.as_str(), other.as_str())
    }
}

/// The map that a list of pairs with distinct keys stands for.
pub open spec fn pairs_map<K, V>(s: Seq<(K, V)>) -> Map<K, V> {
    Map::new(
        |k: K| exists|i: int| 0 <= i < s.len() && #[trigger] s[i].0 == k,
        |k: K| s[choose|i: int| 0 <= i < s.len() && #[trigger] s[i].0 == k].1,
    )
}

/// No key occurs twice.
pub open spec fn unique_keys<K, V>(s: Seq<(K, V)>) -> bool {
    forall|i: int, j: int| 0 <= i < j < s.len() ==> #[trigger] s[i].0 != #[trigger] s[j].0
}

pub proof fn lemma_pairs_map_at<K, V>(s: Seq<(K, V)>, i: int)
    requires
        unique_keys(s),
        0 <= i < s.len(),
    ensures
        pairs_map(s).contains_key(s[i].0),
        pairs_map(s)[s[i].0] == s[i].1,
{
    let k = s[i].0;
    assert(0 <= i < s.len() && s[i].0 == k);
    let j = choose|j: int| 0 <= j < s.len() && #[trigger] s[j].0 == k;
    if j < i {
        assert(s[j].0 != s[i].0);
    } else if i < j {
        assert(s[i].0 != s[j].0);
    }
}

/// Replacing the value at a position replaces the key's value.
pub proof fn lemma_pairs_update<K, V>(s: Seq<(K, V)>, i: int, v: V)
    requires
        unique_keys(s),
        0 <= i < s.len(),
    ensures
        unique_keys(s.update(i, (s[i].0, v))),
        pairs_map(s.update(i, (s[i].0, v))) == pairs_map(s).insert(s[i].0, v),
{
    let k = s[i].0;
    let t = s.update(i, (k, v));
    assert(unique_keys(t)) by {
        assert forall|a: int, b: int| 0 <= a < b < t.len() implies #[trigger] t[a].0 != #[trigger] t[b].0 by {
            assert(t[a].0 == s[a].0 && t[b].0 == s[b].0);
        }
    }
    assert(pairs_map(t) =~= pairs_map(s).insert(k, v)) by {
        assert forall|q: K| pairs_map(t).contains_key(q) <==> pairs_map(s).insert(k, v).contains_key(q) by {
            if pairs_map(s).contains_key(q) {
                let a = choose|a: int| 0 <= a < s.len() && #[trigger] s[a].0 == q;
                assert(t[a].0 == q);
            }
            if pairs_map(t).contains_key(q) {
                let a = choose|a: int| 0 <= a < t.len() && #[trigger] t[a].0 == q;
                assert(s[a].0 == q);
            }
            if q == k {
                assert(t[i].0 == q);
            }
        }
        assert forall|q: K| #[trigger] pairs_map(t).contains_key(q) implies pairs_map(t)[q] == pairs_map(s).insert(k, v)[q] by {
            let a = choose|a: int| 0 <= a < t.len() && #[trigger] t[a].0 == q;
            lemma_pairs_map_at(t, a);
            if a != i {
                lemma_pairs_map_at(s, a);
            }
        }
    }
}

/// Appending a new key adds it to the map.
pub proof fn lemma_pairs_push<K, V>(s: Seq<(K, V)>, k: K, v: V)
    requires
        unique_keys(s),
        !pairs_map(s).contains_key(k),
    ensures
        unique_keys(s.push((k, v))),
        pairs_map(s.push((k, v))) == pairs_map(s).insert(k, v),
{
    let t = s.push((k, v));
    assert forall|a: int| 0 <= a < s.len() implies #[trigger] s[a].0 != k by {
        if s[a].0 == k {
            assert(pairs_map(s).contains_key(k));
        }
    }
    assert(unique_keys(t)) by {
        assert forall|a: int, b: int| 0 <= a < b < t.len() implies #[trigger] t[a].0 != #[trigger] t[b].0 by {
            if b == s.len() {
                assert(s[a].0 != k);
            } else {
                assert(t[a].0 == s[a].0 && t[b].0 == s[b].0);
            }
        }
    }
    assert(pairs_map(t) =~= pairs_map(s).insert(k, v)) by {
        assert forall|q: K| pairs_map(t).contains_key(q) <==> pairs_map(s).insert(k, v).contains_key(q) by {
            if pairs_map(s).contains_key(q) {
                let a = choose|a: int| 0 <= a < s.len() && #[trigger] s[a].0 == q;
                assert(t[a].0 == q);
            }
            if pairs_map(t).contains_key(q) {
                let a = choose|a: int| 0 <= a < t.len() && #[trigger] t[a].0 == q;
                if a < s.len() {
                    assert(s[a].0 == q);
                }
            }
            if q == k {
                assert(t[s.len() as int].0 == q);
            }
        }
        assert forall|q: K| #[trigger] pairs_map(t).contains_key(q) implies pairs_map(t)[q] == pairs_map(s).insert(k, v)[q] by {
            let a = choose|a: int| 0 <= a < t.len() && #[trigger] t[a].0 == q;
            lemma_pairs_map_at(t, a);
            if a < s.len() {
                lemma_pairs_map_at(s, a);
            }
        }
    }
}

/// Removing a position removes its key from the map.
pub proof fn lemma_pairs_remove<K, V>(s: Seq<(K, V)>, i: int)
    requires
        unique_keys(s),
        0 <= i < s.len(),
    ensures
        unique_keys(s.remove(i)),
        pairs_map(s.remove(i)) == pairs_map(s).remove(s[i].0),
{
    let k = s[i].0;
    let t = s.remove(i);
    assert(forall|a: int| 0 <= a < i ==> t[a] == s[a]);
    assert(forall|a: int| i <= a < t.len() ==> t[a] == s[a + 1]);
    assert(unique_keys(t)) by {
        assert forall|a: int, b: int| 0 <= a < b < t.len() implies #[trigger] t[a].0 != #[trigger] t[b].0 by {
            let a2 = if a < i { a } else { a + 1 };
            let b2 = if b < i { b } else { b + 1 };
            assert(t[a] == s[a2] && t[b] == s[b2]);
        }
    }
    assert(pairs_map(t) =~= pairs_map(s).remove(k)) by {
        assert forall|q: K| pairs_map(t).contains_key(q) <==> pairs_map(s).remove(k).contains_key(q) by {
            if pairs_map(t).contains_key(q) {
                let a = choose|a: int| 0 <= a < t.len() && #[trigger] t[a].0 == q;
                let a2 = if a < i { a } else { a + 1 };
                assert(s[a2].0 == q);
                if q == k {
                    if a2 < i { assert(s[a2].0 != s[i].0); } else { assert(s[i].0 != s[a2].0); }
                }
            }
            if pairs_map(s).contains_key(q) && q != k {
                let a = choose|a: int| 0 <= a < s.len() && #[trigger] s[a].0 == q;
                assert(a != i);
                if a < i { assert(t[a].0 == q); } else { assert(t[a - 1].0 == q); }
            }
        }
        assert forall|q: K| #[trigger] pairs_map(t).contains_key(q) implies pairs_map(t)[q] == pairs_map(s).remove(k)[q] by {
            let a = choose|a: int| 0 <= a < t.len() && #[trigger] t[a].0 == q;
            lemma_pairs_map_at(t, a);
            let a2 = if a < i { a } else { a + 1 };
            lemma_pairs_map_at(s, a2);
        }
    }
}

/// The map has exactly one key per position.
pub proof fn lemma_pairs_dom<K, V>(s: Seq<(K, V)>)
    requires
        unique_keys(s),
    ensures
        pairs_map(s).dom().finite(),
        pairs_map(s).dom().len() == s.len(),
{
    let keys = s.map_values(|e: (K, V)| e.0);
    assert(pairs_map(s).dom() =~= keys.to_set()) by {
        assert forall|k: K| pairs_map(s).dom().contains(k) implies keys.to_set().contains(k) by {
            let i = choose|i: int| 0 <= i < s.len() && #[trigger] s[i].0 == k;
            assert(keys[i] == k);
        }
        assert forall|k: K| keys.to_set().contains(k) implies pairs_map(s).dom().contains(k) by {
            let i = choose|i: int| 0 <= i < keys.len() && keys[i] == k;
            assert(s[i].0 == k);
        }
    }
    assert(keys.no_duplicates()) by {
        assert forall|i: int, j: int| 0 <= i < keys.len() && 0 <= j < keys.len() && i != j implies keys[i] != keys[j] by {
            if i < j {
                assert(s[i].0 != s[j].0);
            } else {
                assert(s[j].0 != s[i].0);
            }
        }
    }
    keys.unique_seq_to_set();
}

/// Entries with distinct keys, in insertion order.
#[derive(Debug, Clone)]
pub struct Table<K, V> {
    entries: Vec<(K, V)>,
}

impl<K: TableKey, V> Table<K, V> {
    /// The pairs, keys taken by their views.
    pub closed spec fn pairs(&self) -> Seq<(K::KeyView, V)> {
        self.entries@.map_values(|e: (K, V)| (e.0.key_view(), e.1))
    }

    pub closed spec fn wf(&self) -> bool {
        unique_keys(self.pairs())
    }

    /// The contents as a map.
    pub closed spec fn map(&self) -> Map<K::KeyView, V> {
        pairs_map(self.pairs())
    }

    pub closed spec fn size(&self) -> nat {
        self.entries@.len()
    }

    /// The key at position `i`, by its view.
    pub closed spec fn key_at(&self, i: int) -> K::KeyView {
        self.entries@[i].0.key_view()
    }

    /// The keys in position order.
    pub open spec fn keys(&self) -> Seq<K::KeyView> {
        Seq::new(self.size(), |i: int| self.key_at(i))
    }

    pub fn new() -> (r: Table<K, V>)
        ensures
            r.wf(),
            r.map() == Map::<K::KeyView, V>::empty(),
            r.size() == 0,
    {
        let r = Table { entries: Vec::new() };
        assert(r.pairs() =~= Seq::<(K::KeyView, V)>::empty());
        assert(r.map() =~= Map::<K::KeyView, V>::empty());
        r
    }

    /// Positions and keys correspond one to one.
    pub proof fn lemma_positions(&self)
        requires
            self.wf(),
        ensures
            forall|i: int| 0 <= i < self.size() ==> self.map().contains_key(#[trigger] self.key_at(i)),
            forall|k: K::KeyView| self.map().contains_key(k) ==> exists|i: int| 0 <= i < self.size() && #[trigger] self.key_at(i) == k,
            forall|i: int, j: int| 0 <= i < j < self.size() ==> self.key_at(i) != self.key_at(j),
            self.map().dom().finite(),
            self.map().dom().len() == self.size(),
    {
        let s = self.pairs();
        assert forall|i: int| 0 <= i < self.size() implies self.map().contains_key(#[trigger] self.key_at(i)) by {
            lemma_pairs_map_at(s, i);
        }
        assert forall|k: K::KeyView| self.map().contains_key(k) implies exists|i: int| 0 <= i < self.size() && #[trigger] self.key_at(i) == k by {
            let i = choose|i: int| 0 <= i < s.len() && #[trigger] s[i].0 == k;
            assert(self.key_at(i) == k);
        }
        assert forall|i: int, j: int| 0 <= i < j < self.size() implies self.key_at(i) != self.key_at(j) by {
            assert(s[i].0 != s[j].0);
        }
        lemma_pairs_dom(s);
    }

    pub fn len(&self) -> (r: usize)
        ensures
            r == self.size(),
    {
        self.entries.len()
    }

    /// The key at position `i`.
    pub fn key(&self, i: usize) -> (r: &K)
        requires
            i < self.size(),
        ensures
            r.key_view() == self.key_at(i as int),
    {
        &self.entries[i].0
    }

    /// Position of `k`, if present.
    pub fn index_of(&self, k: &K) -> (r: Option<usize>)
        requires
            self.wf(),
        ensures
            match r {
                Some(i) => i < self.size() && self.key_at(i as int) == k.key_view()
                    && self.map().contains_key(k.key_view()),
                None => !self.map().contains_key(k.key_view()),
            },
    {
        let mut i: usize = 0;
        while i < self.entries.len()
            invariant
                i <= self.entries@.len(),
                unique_keys(self.pairs()),
                forall|j: int| 0 <= j < i ==> self.pairs()[j].0 != k.key_view(),
            decreases self.entries@.len() - i,
        {
            if self.entries[i].0.same_key(k) {
                proof { lemma_pairs_map_at(self.pairs(), i as int); }
                return Some(i);
            }
            i = i + 1;
        }
        proof {
            if self.map().contains_key(k.key_view()) {
                let j = choose|j: int| 0 <= j < self.pairs().len() && #[trigger] self.pairs()[j].0 == k.key_view();
            }
        }
        None
    }

    /// Whether `k` is present.
    pub fn contains(&self, k: &K) -> (r: bool)
        requires
            self.wf(),
        ensures
            r == self.map().contains_key(k.key_view()),
    {
        self.index_of(k).is_some()
    }

    /// The value at position `i`.
    pub fn value_at(&self, i: usize) -> (r: &V)
        requires
            self.wf(),
            i < self.size(),
        ensures
            *r == self.map()[self.key_at(i as int)],
    {
        proof { lemma_pairs_map_at(self.pairs(), i as int); }
        &self.entries[i].1
    }

    /// Replaces the value at position `i`, handing back the old one.
    pub fn replace_at(&mut self, i: usize, v: V) -> (r: V)
        requires
            old(self).wf(),
            i < old(self).size(),
        ensures
            final(self).wf(),
            r == old(self).map()[old(self).key_at(i as int)],
            final(self).size() == old(self).size(),
            forall|j: int| 0 <= j < old(self).size() ==> final(self).key_at(j) == old(self).key_at(j),
            final(self).map() == old(self).map().insert(old(self).key_at(i as int), v),
    {
        let ghost s = self.pairs();
        proof { lemma_pairs_map_at(s, i as int); }
        let (k, old_v) = self.entries.remove(i);
        self.entries.insert(i, (k, v));
        proof {
            assert(self.pairs() =~= s.update(i as int, (s[i as int].0, v)));
            lemma_pairs_update(s, i as int, v);
        }
        old_v
    }

    /// Adds an entry for a key that is not present.
    pub fn push_new(&mut self, k: K, v: V)
        requires
            old(self).wf(),
            !old(self).map().contains_key(k.key_view()),
        ensures
            final(self).wf(),
            final(self).map() == old(self).map().insert(k.key_view(), v),
            final(self).size() == old(self).size() + 1,
            forall|j: int| 0 <= j < old(self).size() ==> final(self).key_at(j) == old(self).key_at(j),
            final(self).key_at(old(self).size() as int) == k.key_view(),
    {
        let ghost s = self.pairs();
        let ghost kv = k.key_view();
        self.entries.push((k, v));
        proof {
            assert(self.pairs() =~= s.push((kv, v)));
            lemma_pairs_push(s, kv, v);
        }
    }

    /// Removes the entry at position `i`, handing back its key and value.
    pub fn remove_at(&mut self, i: usize) -> (r: (K, V))
        requires
            old(self).wf(),
            i < old(self).size(),
        ensures
            final(self).wf(),
            r.0.key_view() == old(self).key_at(i as int),
            r.1 == old(self).map()[old(self).key_at(i as int)],
            final(self).map() == old(self).map().remove(old(self).key_at(i as int)),
            final(self).size() == old(self).size() - 1,
            forall|j: int| 0 <= j < i ==> final(self).key_at(j) == old(self).key_at(j),
            forall|j: int| i <= j < final(self).size() ==> final(self).key_at(j) == old(self).key_at(j + 1),
    {
        let ghost s = self.pairs();
        proof { lemma_pairs_map_at(s, i as int); }
        let r = self.entries.remove(i);
        proof {
            assert(self.pairs() =~= s.remove(i as int));
            lemma_pairs_remove(s, i as int);
        }
        r
    }

    /// Sets `k` to `v`, adding the key if it is new.
    pub fn insert(&mut self, k: K, v: V)
        requires
            old(self).wf(),
        ensures
            final(self).wf(),
            final(self).map() == old(self).map().insert(k.key_view(), v),
    {
        match self.index_of(&k) {
            Some(i) => {
                let _ = self.replace_at(i, v);
            },
            None => {
                self.push_new(k, v);
            },
        }
    }

    /// Removes `k` if present, handing back its value.
    pub fn remove(&mut self, k: &K) -> (r: Option<V>)
        requires
            old(self).wf(),
        ensures
            final(self).wf(),
            final(self).map() == old(self).map().remove(k.key_view()),
            match r {
                Some(v) => old(self).map().contains_key(k.key_view()) && v == old(self).map()[k.key_view()],
                None => !old(self).map().contains_key(k.key_view()),
            },
    {
        match self.index_of(k) {
            Some(i) => {
                let (_, v) = self.remove_at(i);
                Some(v)
            },
            None => {
                assert(self.map().remove(k.key_view()) =~= self.map());
                None
            },
        }
    }
}

} // verus!
