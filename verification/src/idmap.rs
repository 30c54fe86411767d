//! Association map keyed by monitor id: a vector of key/value pairs with
//! pairwise-distinct keys, abstracted as a `Map<u32, V>`. Iteration follows
//! insertion order, which keeps batch processing deterministic.

use vstd::prelude::*;

verus! {

/// The map denoted by an association sequence; later entries win.
pub open spec fn entries_map<V>(s: Seq<(u32, V)>) -> Map<u32, V>
    decreases s.len(),
{
    if s.len() == 0 {
        Map::empty()
    } else {
        entries_map(s.drop_last()).insert(s.last().0, s.last().1)
    }
}

/// No key occurs twice in the association sequence.
pub open spec fn keys_distinct<V>(s: Seq<(u32, V)>) -> bool {
    forall|i: int, j: int| 0 <= i < j < s.len() ==> s[i].0 != s[j].0
}

/// A key is in the denoted map exactly when some entry carries it.
proof fn lemma_entries_map_contains<V>(s: Seq<(u32, V)>, k: u32)
    ensures
        entries_map(s).contains_key(k) <==> exists|i: int| 0 <= i < s.len() && s[i].0 == k,
    decreases s.len(),
{
    if s.len() > 0 {
        let prefix = s.drop_last();
        lemma_entries_map_contains(prefix, k);
        assert(forall|i: int| 0 <= i < prefix.len() ==> prefix[i] == s[i]);
        if s.last().0 == k {
            assert(s[s.len() - 1].0 == k);
        } else if exists|i: int| 0 <= i < prefix.len() && prefix[i].0 == k {
            let i = choose|i: int| 0 <= i < prefix.len() && prefix[i].0 == k;
            assert(s[i].0 == k);
        } else if exists|i: int| 0 <= i < s.len() && s[i].0 == k {
            let i = choose|i: int| 0 <= i < s.len() && s[i].0 == k;
            assert(i < s.len() - 1 ==> prefix[i].0 == k);
            assert(i == s.len() - 1 ==> s.last().0 == k);
            assert(false);
        }
    }
}

/// With distinct keys, the entry carrying a key decides its value.
proof fn lemma_entries_map_index<V>(s: Seq<(u32, V)>, i: int)
    requires
        keys_distinct(s),
        0 <= i < s.len(),
    ensures
        entries_map(s).contains_key(s[i].0),
        entries_map(s)[s[i].0] == s[i].1,
    decreases s.len(),
{
    let prefix = s.drop_last();
    assert(forall|j: int| 0 <= j < prefix.len() ==> prefix[j] == s[j]);
    if i == s.len() - 1 {
    } else {
        lemma_entries_map_index(prefix, i);
        assert(s.last().0 != s[i].0);
    }
}

/// With distinct keys the denoted map has exactly one entry per pair.
proof fn lemma_entries_map_card<V>(s: Seq<(u32, V)>)
    requires
        keys_distinct(s),
    ensures
        entries_map(s).dom().finite(),
        entries_map(s).dom().len() == s.len(),
    decreases s.len(),
{
    if s.len() > 0 {
        let prefix = s.drop_last();
        assert(forall|j: int| 0 <= j < prefix.len() ==> prefix[j] == s[j]);
        lemma_entries_map_card(prefix);
        lemma_entries_map_contains(prefix, s.last().0);
        assert(!entries_map(prefix).contains_key(s.last().0));
    }
}

/// Updating the entry that carries a key is insertion into the denoted map.
proof fn lemma_entries_map_update<V>(s: Seq<(u32, V)>, i: int, v: V)
    requires
        keys_distinct(s),
        0 <= i < s.len(),
    ensures
        entries_map(s.update(i, (s[i].0, v))) =~= entries_map(s).insert(s[i].0, v),
    decreases s.len(),
{
    let t = s.update(i, (s[i].0, v));
    let prefix = s.drop_last();
    assert(forall|j: int| 0 <= j < prefix.len() ==> prefix[j] == s[j]);
    if i == s.len() - 1 {
        assert(t.drop_last() =~= prefix);
        assert(t.last() == (s[i].0, v));
    } else {
        lemma_entries_map_update(prefix, i, v);
        assert(t.drop_last() =~= prefix.update(i, (s[i].0, v)));
        assert(t.last() == s.last());
        assert(s.last().0 != s[i].0);
    }
}

/// A key is in the denoted map exactly when some entry carries it.
pub proof fn lemma_entries_map_key<V>(s: Seq<(u32, V)>, k: u32)
    ensures
        entries_map(s).contains_key(k) <==> exists|i: int| 0 <= i < s.len() && s[i].0 == k,
{
    lemma_entries_map_contains(s, k);
}

/// Each entry of a distinct-keyed association sequence is in its map.
pub proof fn lemma_entries_map_pair<V>(s: Seq<(u32, V)>, j: int)
    requires
        keys_distinct(s),
        0 <= j < s.len(),
    ensures
        entries_map(s).contains_key(s[j].0),
        entries_map(s)[s[j].0] == s[j].1,
{
    lemma_entries_map_index(s, j);
}

pub struct IdMap<V> {
    entries: Vec<(u32, V)>,
}

impl<V> View for IdMap<V> {
    type V = Map<u32, V>;

    closed spec fn view(&self) -> Map<u32, V> {
        entries_map(self.entries@)
    }
}

impl<V> IdMap<V> {
    /// Keys in insertion order.
    pub closed spec fn key_seq(&self) -> Seq<u32> {
        self.entries@.map_values(|e: (u32, V)| e.0)
    }

    /// Keys are pairwise distinct.
    pub closed spec fn wf(&self) -> bool {
        keys_distinct(self.entries@)
    }

    /// What the view says about a well-formed map: its domain is finite,
    /// is enumerated without repetition by `key_seq`, and each position's
    /// key looks up that position's value.
    pub proof fn lemma_view(&self)
        requires
            self.wf(),
        ensures
            self@.dom().finite(),
            self@.dom().len() == self.key_seq().len(),
            forall|i: int, j: int|
                0 <= i < j < self.key_seq().len() ==> self.key_seq()[i] != self.key_seq()[j],
            forall|i: int|
                0 <= i < self.key_seq().len() ==> self@.contains_key(#[trigger] self.key_seq()[i]),
            forall|k: u32|
                self@.contains_key(k) ==> exists|i: int|
                    0 <= i < self.key_seq().len() && self.key_seq()[i] == k,
    {
        lemma_entries_map_card(self.entries@);
        assert forall|i: int| 0 <= i < self.key_seq().len() implies self@.contains_key(
            #[trigger] self.key_seq()[i],
        ) by {
            lemma_entries_map_index(self.entries@, i);
        }
        assert forall|k: u32| self@.contains_key(k) implies exists|i: int|
            0 <= i < self.key_seq().len() && self.key_seq()[i] == k by {
            lemma_entries_map_contains(self.entries@, k);
            let i = choose|i: int| 0 <= i < self.entries@.len() && self.entries@[i].0 == k;
            assert(self.key_seq()[i] == k);
        }
    }

    /// The empty map.
    pub fn new() -> (r: Self)
        ensures
            r@ =~= Map::<u32, V>::empty(),
            r.wf(),
            r.key_seq() =~= Seq::<u32>::empty(),
    {
        IdMap { entries: Vec::new() }
    }

    pub fn len(&self) -> (n: usize)
        ensures
            n == self.key_seq().len(),
    {
        self.entries.len()
    }

    pub fn is_empty(&self) -> (b: bool)
        requires
            self.wf(),
        ensures
            b == (self.key_seq().len() == 0),
            b == (self@.dom().len() == 0),
            b ==> self@ =~= Map::<u32, V>::empty(),
    {
        proof {
            self.lemma_view();
            if self.entries@.len() == 0 {
                assert(self@ =~= Map::<u32, V>::empty());
            }
        }
        self.entries.len() == 0
    }

    /// The key at a position of the insertion order.
    pub fn key_at(&self, i: usize) -> (k: u32)
        requires
            i < self.key_seq().len(),
        ensures
            k == self.key_seq()[i as int],
    {
        self.entries[i].0
    }

    /// The value at a position of the insertion order.
    pub fn val_at(&self, i: usize) -> (v: &V)
        requires
            self.wf(),
            i < self.key_seq().len(),
        ensures
            self@.contains_key(self.key_seq()[i as int]),
            *v == self@[self.key_seq()[i as int]],
    {
        proof {
            lemma_entries_map_index(self.entries@, i as int);
        }
        &self.entries[i].1
    }

    pub fn contains(&self, k: u32) -> (b: bool)
        requires
            self.wf(),
        ensures
            b == self@.contains_key(k),
    {
        let mut i: usize = 0;
        let n = self.entries.len();
        while i < n
            invariant
                n == self.entries@.len(),
                i <= n,
                forall|j: int| 0 <= j < i ==> self.entries@[j].0 != k,
            decreases n - i,
        {
            if self.entries[i].0 == k {
                proof {
                    lemma_entries_map_contains(self.entries@, k);
                }
                return true;
            }
            i = i + 1;
        }
        proof {
            lemma_entries_map_contains(self.entries@, k);
        }
        false
    }

    pub fn get(&self, k: u32) -> (r: Option<&V>)
        requires
            self.wf(),
        ensures
            match r {
                Some(v) => self@.contains_key(k) && *v == self@[k],
                None => !self@.contains_key(k),
            },
    {
        let mut i: usize = 0;
        let n = self.entries.len();
        while i < n
            invariant
                n == self.entries@.len(),
                i <= n,
                self.wf(),
                forall|j: int| 0 <= j < i ==> self.entries@[j].0 != k,
            decreases n - i,
        {
            if self.entries[i].0 == k {
                proof {
                    lemma_entries_map_index(self.entries@, i as int);
                }
                return Some(&self.entries[i].1);
            }
            i = i + 1;
        }
        proof {
            lemma_entries_map_contains(self.entries@, k);
        }
        None
    }

    /// The entries, in insertion order.
    pub fn into_entries(self) -> (r: Vec<(u32, V)>)
        requires
            self.wf(),
        ensures
            keys_distinct(r@),
            entries_map(r@) == self@,
            r@.map_values(|e: (u32, V)| e.0) == self.key_seq(),
    {
        self.entries
    }

    /// Insert or replace the value under a key. A fresh key goes to the end
    /// of the insertion order; an existing key keeps its position.
    pub fn insert(&mut self, k: u32, v: V)
        requires
            old(self).wf(),
        ensures
            final(self).wf(),
            final(self)@ =~= old(self)@.insert(k, v),
            old(self)@.contains_key(k) ==> final(self).key_seq() == old(self).key_seq(),
            !old(self)@.contains_key(k) ==> final(self).key_seq() =~= old(self).key_seq().push(
                k,
            ),
    {
        let mut i: usize = 0;
        let n = self.entries.len();
        while i < n
            invariant
                n == self.entries@.len(),
                i <= n,
                self.wf(),
                self.entries@ == old(self).entries@,
                forall|j: int| 0 <= j < i ==> self.entries@[j].0 != k,
            decreases n - i,
        {
            if self.entries[i].0 == k {
                proof {
                    lemma_entries_map_index(self.entries@, i as int);
                    lemma_entries_map_update(self.entries@, i as int, v);
                }
                let ghost s0 = self.entries@;
                let entry = &mut self.entries[i];
                *entry = (k, v);
                proof {
                    assert(self.entries@ =~= s0.update(i as int, (k, v)));
                    assert(keys_distinct(self.entries@));
                    assert(self.key_seq() =~= old(self).key_seq());
                }
                return ;
            }
            i = i + 1;
        }
        proof {
            lemma_entries_map_contains(self.entries@, k);
        }
        let ghost s0 = self.entries@;
        self.entries.push((k, v));
        proof {
            assert(self.entries@.drop_last() =~= s0);
            assert(keys_distinct(self.entries@));
            assert(self.key_seq() =~= old(self).key_seq().push(k));
        }
    }
}

} // verus!
