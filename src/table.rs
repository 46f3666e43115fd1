use vstd::prelude::*;

use crate::attributes::ChannelNumber;
use crate::types::{IpAddress, SocketAddress};

verus! {

/// A key that can be compared in executable code.
pub trait Key: Copy + Sized {
    fn same(&self, other: &Self) -> (r: bool)
        ensures
            r == (*self == *other),
    ;
}

impl Key for IpAddress {
    fn same(&self, other: &Self) -> (r: bool) {
        *self == *other
    }
}

impl Key for SocketAddress {
    fn same(&self, other: &Self) -> (r: bool) {
        *self == *other
    }
}

impl Key for ChannelNumber {
    fn same(&self, other: &Self) -> (r: bool) {
        *self == *other
    }
}

pub open spec fn keys_unique<K, V>(s: Seq<(K, V)>) -> bool {
    forall|i: int, j: int|
        0 <= i < s.len() && 0 <= j < s.len() && i != j ==> #[trigger] s[i].0 != #[trigger] s[j].0
}

pub open spec fn has_key<K, V>(s: Seq<(K, V)>, k: K) -> bool {
    exists|i: int| 0 <= i < s.len() && #[trigger] s[i].0 == k
}

/// The map that a list of entries with distinct keys stands for.
pub open spec fn seq_to_map<K, V>(s: Seq<(K, V)>) -> Map<K, V> {
    Map::new(
        |k: K| has_key(s, k),
        |k: K| s[choose|i: int| 0 <= i < s.len() && #[trigger] s[i].0 == k].1,
    )
}

/// A finite map kept as a list of entries with distinct keys.
#[derive(Debug)]
pub struct Table<K, V> {
    entries: Vec<(K, V)>,
}

impl<K: Key, V> View for Table<K, V> {
    type V = Map<K, V>;

    closed spec fn view(&self) -> Map<K, V> {
        seq_to_map(self.entries@)
    }
}

/// The entry at `i` of a list with distinct keys is what the map holds for its key.
proof fn lemma_entry_in_map<K, V>(s: Seq<(K, V)>, i: int)
    requires
        keys_unique(s),
        0 <= i < s.len(),
    ensures
        seq_to_map(s).contains_key(s[i].0),
        seq_to_map(s)[s[i].0] == s[i].1,
{
    assert(has_key(s, s[i].0));
    let j = choose|j: int| 0 <= j < s.len() && #[trigger] s[j].0 == s[i].0;
    assert(s[j].0 == s[i].0);
}

impl<K: Key, V> Table<K, V> {
    pub closed spec fn entries(&self) -> Seq<(K, V)> {
        self.entries@
    }

    pub closed spec fn wf(&self) -> bool {
        keys_unique(self.entries@)
    }

    /// The entries are exactly the pairs of the map.
    pub proof fn lemma_entries(&self)
        requires
            self.wf(),
        ensures
            forall|i: int|
                0 <= i < self.entries().len() ==> self@.contains_key(#[trigger] self.entries()[i].0)
                    && self@[self.entries()[i].0] == self.entries()[i].1,
            forall|k: K|
                #[trigger] self@.contains_key(k) ==> exists|i: int|
                    0 <= i < self.entries().len() && #[trigger] self.entries()[i].0 == k,
            self.entries().len() == self@.dom().len(),
    {
        assert forall|i: int| 0 <= i < self.entries().len() implies self@.contains_key(
            #[trigger] self.entries()[i].0,
        ) && self@[self.entries()[i].0] == self.entries()[i].1 by {
            lemma_entry_in_map(self.entries@, i);
        }
        assert forall|k: K| #[trigger] self@.contains_key(k) implies exists|i: int|
            0 <= i < self.entries().len() && #[trigger] self.entries()[i].0 == k by {
            assert(has_key(self.entries@, k));
            let j = choose|j: int| 0 <= j < self.entries@.len() && #[trigger] self.entries@[j].0 == k;
            assert(self.entries()[j].0 == k);
        }
        lemma_dom_len(self.entries@);
    }

    pub fn new() -> (r: Table<K, V>)
        ensures
            r.wf(),
            r@ == Map::<K, V>::empty(),
    {
        let r = Table { entries: Vec::new() };
        assert(r@ =~= Map::<K, V>::empty());
        r
    }

    pub fn len(&self) -> (r: usize)
        ensures
            r == self.entries().len(),
    {
        self.entries.len()
    }

    pub fn entry(&self, i: usize) -> (r: &(K, V))
        requires
            i < self.entries().len(),
        ensures
            *r == self.entries()[i as int],
    {
        &self.entries[i]
    }

    /// The position of key `k` in the entries.
    pub fn index_of(&self, k: &K) -> (r: Option<usize>)
        requires
            self.wf(),
        ensures
            r is None <==> !self@.contains_key(*k),
            r is Some ==> r->0 < self.entries().len() && self.entries()[r->0 as int].0 == *k
                && self@[*k] == self.entries()[r->0 as int].1,
    {
        let mut i: usize = 0;
        while i < self.entries.len()
            invariant
                i <= self.entries@.len(),
                keys_unique(self.entries@),
                forall|j: int| 0 <= j < i ==> #[trigger] self.entries@[j].0 != *k,
            decreases self.entries@.len() - i,
        {
            if self.entries[i].0.same(k) {
                proof {
                    lemma_entry_in_map(self.entries@, i as int);
                }
                return Some(i);
            }
            i = i + 1;
        }
        None
    }

    pub fn contains_key(&self, k: &K) -> (r: bool)
        requires
            self.wf(),
        ensures
            r == self@.contains_key(*k),
    {
        self.index_of(k).is_some()
    }

    pub fn get(&self, k: &K) -> (r: Option<&V>)
        requires
            self.wf(),
        ensures
            r is None <==> !self@.contains_key(*k),
            r is Some ==> *r->0 == self@[*k],
    {
        match self.index_of(k) {
            None => None,
            Some(i) => Some(&self.entries[i].1),
        }
    }

    /// Sets the value of `k`, in place if it has one.
    pub fn insert(&mut self, k: K, v: V)
        requires
            old(self).wf(),
        ensures
            final(self).wf(),
            final(self)@ == old(self)@.insert(k, v),
    {
        match self.index_of(&k) {
            Some(i) => {
                let ghost s = self.entries@;
                self.entries.set(i, (k, v));
                let ghost t = self.entries@;
                assert(t == s.update(i as int, (k, v)));
                assert forall|a: int, b: int|
                    0 <= a < t.len() && 0 <= b < t.len() && a != b implies #[trigger] t[a].0
                    != #[trigger] t[b].0 by {
                    assert(s[a].0 == t[a].0 && s[b].0 == t[b].0);
                }
                assert forall|x: K| #[trigger] has_key(t, x) == has_key(s, x) by {
                    if has_key(s, x) {
                        let j = choose|j: int| 0 <= j < s.len() && #[trigger] s[j].0 == x;
                        assert(t[j].0 == x);
                    }
                    if has_key(t, x) {
                        let j = choose|j: int| 0 <= j < t.len() && #[trigger] t[j].0 == x;
                        assert(s[j].0 == x);
                    }
                }
                assert forall|x: K| #[trigger] has_key(t, x) implies seq_to_map(t)[x] == old(
                    self,
                )@.insert(k, v)[x] by {
                    let j = choose|j: int| 0 <= j < t.len() && #[trigger] t[j].0 == x;
                    lemma_entry_in_map(t, j);
                    lemma_entry_in_map(s, j);
                }
                assert(self@ =~= old(self)@.insert(k, v));
            },
            None => {
                let ghost s = self.entries@;
                self.entries.push((k, v));
                let ghost t = self.entries@;
                assert(t == s.push((k, v)));
                assert forall|a: int, b: int|
                    0 <= a < t.len() && 0 <= b < t.len() && a != b implies #[trigger] t[a].0
                    != #[trigger] t[b].0 by {
                    if a < s.len() {
                        assert(t[a] == s[a]);
                    }
                    if b < s.len() {
                        assert(t[b] == s[b]);
                    }
                    if a == s.len() {
                        assert(!has_key(s, k));
                        assert(s[b].0 != k);
                    }
                    if b == s.len() {
                        assert(!has_key(s, k));
                        assert(s[a].0 != k);
                    }
                }
                assert forall|x: K| #[trigger] has_key(t, x) == (has_key(s, x) || x == k) by {
                    if has_key(s, x) {
                        let j = choose|j: int| 0 <= j < s.len() && #[trigger] s[j].0 == x;
                        assert(t[j].0 == x);
                    }
                    if x == k {
                        assert(t[s.len() as int].0 == x);
                    }
                    if has_key(t, x) && x != k {
                        let j = choose|j: int| 0 <= j < t.len() && #[trigger] t[j].0 == x;
                        assert(j < s.len());
                        assert(s[j].0 == x);
                    }
                }
                assert forall|x: K| #[trigger] has_key(t, x) implies seq_to_map(t)[x] == old(
                    self,
                )@.insert(k, v)[x] by {
                    let j = choose|j: int| 0 <= j < t.len() && #[trigger] t[j].0 == x;
                    lemma_entry_in_map(t, j);
                    if j < s.len() {
                        lemma_entry_in_map(s, j);
                    }
                }
                assert(self@ =~= old(self)@.insert(k, v));
            },
        }
    }

    /// Removes `k` and returns its value, if it had one.
    pub fn remove(&mut self, k: &K) -> (r: Option<V>)
        requires
            old(self).wf(),
        ensures
            final(self).wf(),
            final(self)@ == old(self)@.remove(*k),
            r is None <==> !old(self)@.contains_key(*k),
            r is Some ==> r->0 == old(self)@[*k],
    {
        match self.index_of(k) {
            None => {
                assert(self@ =~= old(self)@.remove(*k));
                None
            },
            Some(i) => {
                let ghost s = self.entries@;
                let e = self.entries.remove(i);
                let ghost t = self.entries@;
                assert(t == s.remove(i as int));
                assert forall|a: int, b: int|
                    0 <= a < t.len() && 0 <= b < t.len() && a != b implies #[trigger] t[a].0
                    != #[trigger] t[b].0 by {
                    let sa = if a < i {
                        a
                    } else {
                        a + 1
                    };
                    let sb = if b < i {
                        b
                    } else {
                        b + 1
                    };
                    assert(t[a] == s[sa] && t[b] == s[sb]);
                }
                assert forall|x: K| #[trigger] has_key(t, x) == (has_key(s, x) && x != *k) by {
                    if has_key(s, x) && x != *k {
                        let j = choose|j: int| 0 <= j < s.len() && #[trigger] s[j].0 == x;
                        assert(j != i);
                        if j < i {
                            assert(t[j].0 == x);
                        } else {
                            assert(t[j - 1].0 == x);
                        }
                    }
                    if has_key(t, x) {
                        let j = choose|j: int| 0 <= j < t.len() && #[trigger] t[j].0 == x;
                        let sj = if j < i {
                            j
                        } else {
                            j + 1
                        };
                        assert(s[sj].0 == x);
                        assert(sj != i);
                    }
                }
                assert forall|x: K| #[trigger] has_key(t, x) implies seq_to_map(t)[x] == old(
                    self,
                )@.remove(*k)[x] by {
                    let j = choose|j: int| 0 <= j < t.len() && #[trigger] t[j].0 == x;
                    lemma_entry_in_map(t, j);
                    let sj = if j < i {
                        j
                    } else {
                        j + 1
                    };
                    assert(s[sj] == t[j]);
                    lemma_entry_in_map(s, sj);
                }
                assert(self@ =~= old(self)@.remove(*k));
                Some(e.1)
            },
        }
    }
}

/// A list with distinct keys has as many entries as its map has keys.
proof fn lemma_dom_len<K, V>(s: Seq<(K, V)>)
    requires
        keys_unique(s),
    ensures
        seq_to_map(s).dom().finite(),
        s.len() == seq_to_map(s).dom().len(),
    decreases s.len(),
{
    if s.len() == 0 {
        assert(seq_to_map(s).dom() =~= Set::<K>::empty());
    } else {
        let p = s.drop_last();
        let k = s.last().0;
        assert(keys_unique(p)) by {
            assert forall|a: int, b: int|
                0 <= a < p.len() && 0 <= b < p.len() && a != b implies #[trigger] p[a].0
                != #[trigger] p[b].0 by {
                assert(p[a] == s[a] && p[b] == s[b]);
            }
        }
        lemma_dom_len(p);
        assert(!has_key(p, k)) by {
            if has_key(p, k) {
                let j = choose|j: int| 0 <= j < p.len() && #[trigger] p[j].0 == k;
                assert(s[j].0 == k);
                assert(s[s.len() - 1].0 == k);
            }
        }
        assert(seq_to_map(s).dom() =~= seq_to_map(p).dom().insert(k)) by {
            assert forall|x: K| #[trigger] has_key(s, x) == (has_key(p, x) || x == k) by {
                if has_key(p, x) {
                    let j = choose|j: int| 0 <= j < p.len() && #[trigger] p[j].0 == x;
                    assert(s[j].0 == x);
                }
                if x == k {
                    assert(s[s.len() - 1].0 == x);
                }
                if has_key(s, x) && x != k {
                    let j = choose|j: int| 0 <= j < s.len() && #[trigger] s[j].0 == x;
                    assert(p[j].0 == x);
                }
            }
        }
    }
}

} // verus!
