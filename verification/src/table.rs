//! Keyed ledger tables.
//!
//! A [`Table`] is the in-memory form of one family of ledger entries that
//! share a key shape (for example every `Creator(token_id)` entry).  Its
//! model is a finite map from key models to value models; lookups,
//! overwrites and removals are proved against that map.

use vstd::prelude::*;

verus! {

/// A value that can be copied out of the ledger with its model intact.
pub trait Duplicate: DeepView + Sized {
    fn duplicate(&self) -> (r: Self)
        ensures
            r.deep_view() == self.deep_view(),
    ;
}

/// A value that can key a ledger table: two keys address the same entry
/// exactly when their models agree.
pub trait LedgerKey: Duplicate {
    fn same_key(&self, other: &Self) -> (r: bool)
        ensures
            r == (self.deep_view() == other.deep_view()),
    ;
}

impl Duplicate for u32 {
    fn duplicate(&self) -> (r: Self) {
        *self
    }
}

impl LedgerKey for u32 {
    fn same_key(&self, other: &Self) -> (r: bool) {
        *self == *other
    }
}

impl Duplicate for bool {
    fn duplicate(&self) -> (r: Self) {
        *self
    }
}

impl Duplicate for String {
    fn duplicate(&self) -> (r: Self) {
        self.clone()
    }
}

impl<T: Duplicate> Duplicate for Option<T> {
    fn duplicate(&self) -> (r: Self) {
        match self {
            Some(v) => Some(v.duplicate()),
            None => None,
        }
    }
}

impl<T: Duplicate> Duplicate for Vec<T> {
    fn duplicate(&self) -> (r: Self) {
        let mut out: Vec<T> = Vec::new();
        let n = self.len();
        for i in 0..n
            invariant
                n == self.len(),
                out.len() == i,
                forall|j: int| 0 <= j < i ==> #[trigger] out@[j].deep_view() == self@[j].deep_view(),
        {
            out.push(self[i].duplicate());
        }
        assert(out.deep_view() =~= self.deep_view());
        out
    }
}

impl<A: Duplicate, B: Duplicate> Duplicate for (A, B) {
    fn duplicate(&self) -> (r: Self) {
        (self.0.duplicate(), self.1.duplicate())
    }
}

impl<A: LedgerKey, B: LedgerKey> LedgerKey for (A, B) {
    fn same_key(&self, other: &Self) -> (r: bool) {
        self.0.same_key(&other.0) && self.1.same_key(&other.1)
    }
}

/// The map described by a list of entries: a later entry for a key
/// overrides an earlier one.
pub open spec fn entries_to_map<K, V>(s: Seq<(K, V)>) -> Map<K, V>
    decreases s.len(),
{
    if s.len() == 0 {
        Map::empty()
    } else {
        entries_to_map(s.drop_last()).insert(s.last().0, s.last().1)
    }
}

/// The entry at `i` is the last one for its key, so it is the one the map keeps.
proof fn lemma_last_entry_wins<K, V>(s: Seq<(K, V)>, i: int)
    requires
        0 <= i < s.len(),
        forall|j: int| i < j < s.len() ==> #[trigger] s[j].0 != s[i].0,
    ensures
        entries_to_map(s).contains_key(s[i].0),
        entries_to_map(s)[s[i].0] == s[i].1,
    decreases s.len(),
{
    if i < s.len() - 1 {
        let t = s.drop_last();
        assert(s[s.len() - 1].0 != s[i].0);
        assert forall|j: int| i < j < t.len() implies #[trigger] t[j].0 != t[i].0 by {
            assert(t[j] == s[j]);
        }
        lemma_last_entry_wins(t, i);
    }
}

/// A key that no entry carries is absent from the map.
proof fn lemma_key_absent<K, V>(s: Seq<(K, V)>, k: K)
    requires
        forall|j: int| 0 <= j < s.len() ==> #[trigger] s[j].0 != k,
    ensures
        !entries_to_map(s).contains_key(k),
    decreases s.len(),
{
    if s.len() > 0 {
        let t = s.drop_last();
        assert forall|j: int| 0 <= j < t.len() implies #[trigger] t[j].0 != k by {
            assert(t[j] == s[j]);
        }
        lemma_key_absent(t, k);
    }
}

/// One family of ledger entries, keyed by `K` and holding `V`.
pub struct Table<K, V> {
    entries: Vec<(K, V)>,
}

impl<K: LedgerKey, V: Duplicate> Table<K, V> {
    /// Models of the stored entries, in storage order.
    pub closed spec fn entry_models(&self) -> Seq<(K::V, V::V)> {
        self.entries@.map_values(|e: (K, V)| (e.0.deep_view(), e.1.deep_view()))
    }

    /// The table as a map from key models to value models.
    pub closed spec fn model(&self) -> Map<K::V, V::V> {
        entries_to_map(self.entry_models())
    }

    /// An empty table.
    pub fn new() -> (t: Self)
        ensures
            t.model() == Map::<K::V, V::V>::empty(),
    {
        let t = Table { entries: Vec::new() };
        assert(t.entry_models().len() == 0);
        t
    }

    /// The entry stored under `key`, copied out.
    pub fn get(&self, key: &K) -> (r: Option<V>)
        ensures
            r.deep_view() == self.model().get(key.deep_view()),
    {
        let ghost s = self.entry_models();
        let mut i = self.entries.len();
        while i > 0
            invariant
                i <= self.entries.len(),
                s == self.entry_models(),
                forall|j: int| i <= j < s.len() ==> #[trigger] s[j].0 != key.deep_view(),
            decreases i,
        {
            let e = &self.entries[i - 1];
            if e.0.same_key(key) {
                proof {
                    assert(s[i - 1] == (e.0.deep_view(), e.1.deep_view()));
                    lemma_last_entry_wins(s, i - 1);
                }
                return Some(e.1.duplicate());
            }
            proof {
                assert(s[i - 1] == (e.0.deep_view(), e.1.deep_view()));
            }
            i = i - 1;
        }
        proof {
            lemma_key_absent(s, key.deep_view());
        }
        None
    }

    /// Whether an entry is stored under `key`.
    pub fn contains(&self, key: &K) -> (r: bool)
        ensures
            r == self.model().contains_key(key.deep_view()),
    {
        let ghost s = self.entry_models();
        let mut i = self.entries.len();
        while i > 0
            invariant
                i <= self.entries.len(),
                s == self.entry_models(),
                forall|j: int| i <= j < s.len() ==> #[trigger] s[j].0 != key.deep_view(),
            decreases i,
        {
            let e = &self.entries[i - 1];
            if e.0.same_key(key) {
                proof {
                    assert(s[i - 1] == (e.0.deep_view(), e.1.deep_view()));
                    lemma_last_entry_wins(s, i - 1);
                }
                return true;
            }
            proof {
                assert(s[i - 1] == (e.0.deep_view(), e.1.deep_view()));
            }
            i = i - 1;
        }
        proof {
            lemma_key_absent(s, key.deep_view());
        }
        false
    }

    /// Delete the entry stored under `key`, if any.
    pub fn remove(&mut self, key: &K)
        ensures
            final(self).model() == old(self).model().remove(key.deep_view()),
    {
        let ghost s = old(self).entry_models();
        let ghost k = key.deep_view();
        let mut kept: Vec<(K, V)> = Vec::new();
        let n = self.entries.len();
        for i in 0..n
            invariant
                n == self.entries.len(),
                s == self.entry_models(),
                k == key.deep_view(),
                kept@.map_values(|e: (K, V)| (e.0.deep_view(), e.1.deep_view())).len() == kept.len(),
                entries_to_map(kept@.map_values(|e: (K, V)| (e.0.deep_view(), e.1.deep_view())))
                    == entries_to_map(s.take(i as int)).remove(k),
        {
            let ghost before = kept@.map_values(|e: (K, V)| (e.0.deep_view(), e.1.deep_view()));
            let e = &self.entries[i];
            proof {
                assert(s[i as int] == (e.0.deep_view(), e.1.deep_view()));
                assert(s.take(i + 1).drop_last() =~= s.take(i as int));
                assert(s.take(i + 1).last() == s[i as int]);
            }
            if !e.0.same_key(key) {
                let copy = (e.0.duplicate(), e.1.duplicate());
                kept.push(copy);
                proof {
                    let after = kept@.map_values(|e: (K, V)| (e.0.deep_view(), e.1.deep_view()));
                    assert(after.drop_last() =~= before);
                    assert(after.last() == s[i as int]);
                    assert(s[i as int].0 != k);
                    assert(entries_to_map(after) == entries_to_map(before).insert(s[i as int].0, s[i as int].1));
                    assert(entries_to_map(s.take(i + 1)) == entries_to_map(s.take(i as int)).insert(s[i as int].0, s[i as int].1));
                    assert(entries_to_map(after) =~= entries_to_map(s.take(i + 1)).remove(k));
                }
            } else {
                proof {
                    assert(s[i as int].0 == k);
                    assert(entries_to_map(s.take(i + 1)) == entries_to_map(s.take(i as int)).insert(s[i as int].0, s[i as int].1));
                    assert(entries_to_map(before) =~= entries_to_map(s.take(i + 1)).remove(k));
                }
            }
        }
        proof {
            assert(s.take(n as int) =~= s);
        }
        self.entries = kept;
    }

    /// Store `value` under `key`, replacing any entry already there.
    pub fn set(&mut self, key: K, value: V)
        ensures
            final(self).model() == old(self).model().insert(key.deep_view(), value.deep_view()),
    {
        self.remove(&key);
        let ghost before = self.entry_models();
        let ghost km = key.deep_view();
        let ghost vm = value.deep_view();
        self.entries.push((key, value));
        proof {
            assert(self.entry_models().drop_last() =~= before);
            assert(self.entry_models().last() == (km, vm));
            assert(self.model() =~= old(self).model().remove(km).insert(km, vm));
        }
    }
}

} // verus!
