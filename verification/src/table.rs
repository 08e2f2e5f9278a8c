//! A key-addressed table of records, the in-memory model of the persistent
//! record store: create a record at a fresh address, read it, replace it in
//! place, destroy it. Its mathematical value is a map from address bytes to
//! the record's view.

use vstd::prelude::*;
use crate::identity::Identity;

verus! {

/// The map an entry sequence denotes: later entries win, though under
/// `distinct_keys` there is at most one entry per key.
pub open spec fn table_map<V: View>(s: Seq<(Identity, V)>) -> Map<Seq<u8>, V::V>
    decreases s.len(),
{
    if s.len() == 0 {
        Map::empty()
    } else {
        table_map(s.drop_last()).insert(s.last().0@, s.last().1@)
    }
}

/// No two entries share an address.
pub open spec fn distinct_keys<V>(s: Seq<(Identity, V)>) -> bool {
    forall|i: int, j: int| 0 <= i < j < s.len() ==> s[i].0@ != s[j].0@
}

proof fn lemma_table_map_contains<V: View>(s: Seq<(Identity, V)>, k: Seq<u8>)
    ensures
        table_map(s).contains_key(k) <==> exists|i: int| 0 <= i < s.len() && s[i].0@ == k,
    decreases s.len(),
{
    if s.len() > 0 {
        lemma_table_map_contains(s.drop_last(), k);
        if table_map(s).contains_key(k) {
            if s.last().0@ == k {
                assert(s[s.len() - 1].0@ == k);
            } else {
                let i = choose|i: int| 0 <= i < s.drop_last().len() && s.drop_last()[i].0@ == k;
                assert(s[i].0@ == k);
            }
        }
        if exists|i: int| 0 <= i < s.len() && s[i].0@ == k {
            let i = choose|i: int| 0 <= i < s.len() && s[i].0@ == k;
            if i < s.len() - 1 {
                assert(s.drop_last()[i].0@ == k);
            }
        }
    }
}

proof fn lemma_table_map_index<V: View>(s: Seq<(Identity, V)>, i: int)
    requires
        distinct_keys(s),
        0 <= i < s.len(),
    ensures
        table_map(s).contains_key(s[i].0@),
        table_map(s)[s[i].0@] == s[i].1@,
    decreases s.len(),
{
    if i < s.len() - 1 {
        lemma_table_map_index(s.drop_last(), i);
        assert(s.drop_last()[i] == s[i]);
        assert(s[i].0@ != s.last().0@);
    }
}

proof fn lemma_table_map_remove<V: View>(s: Seq<(Identity, V)>, i: int)
    requires
        distinct_keys(s),
        0 <= i < s.len(),
    ensures
        table_map(s.remove(i)) == table_map(s).remove(s[i].0@),
    decreases s.len(),
{
    let k = s[i].0@;
    if i == s.len() - 1 {
        assert(s.remove(i) =~= s.drop_last());
        lemma_table_map_contains(s.drop_last(), k);
        assert(!table_map(s.drop_last()).contains_key(k));
        assert(table_map(s.drop_last()).insert(k, s.last().1@).remove(k) =~= table_map(
            s.drop_last(),
        ));
    } else {
        assert(s.remove(i).drop_last() =~= s.drop_last().remove(i));
        assert(s.remove(i).last() == s.last());
        lemma_table_map_remove(s.drop_last(), i);
        assert(k != s.last().0@);
        assert(table_map(s.drop_last()).remove(k).insert(s.last().0@, s.last().1@)
            =~= table_map(s.drop_last()).insert(s.last().0@, s.last().1@).remove(k));
        assert(table_map(s.remove(i)) == table_map(s.drop_last()).remove(k).insert(
            s.last().0@,
            s.last().1@,
        ));
    }
}

/// A table of records addressed by identity.
pub struct Table<V> {
    entries: Vec<(Identity, V)>,
}

impl<V: View> View for Table<V> {
    type V = Map<Seq<u8>, V::V>;

    closed spec fn view(&self) -> Map<Seq<u8>, V::V> {
        table_map(self.entries@)
    }
}

impl<V: View> Table<V> {
    /// Each address names at most one record.
    pub closed spec fn wf(self) -> bool {
        distinct_keys(self.entries@)
    }

    /// An empty table.
    pub fn new() -> (r: Self)
        ensures
            r.wf(),
            r@ == Map::<Seq<u8>, V::V>::empty(),
    {
        Table { entries: Vec::new() }
    }

    /// The position of the record at `key`, if one exists.
    fn find_index(&self, key: &Identity) -> (r: Option<usize>)
        ensures
            match r {
                Some(i) => i < self.entries@.len() && self.entries@[i as int].0@ == key@,
                None => !self@.contains_key(key@),
            },
    {
        let n = self.entries.len();
        let mut i: usize = 0;
        while i < n
            invariant
                n == self.entries@.len(),
                0 <= i <= n,
                forall|j: int| 0 <= j < i ==> self.entries@[j].0@ != key@,
            decreases n - i,
        {
            if self.entries[i].0.equals(key) {
                return Some(i);
            }
            i += 1;
        }
        proof {
            lemma_table_map_contains(self.entries@, key@);
        }
        None
    }

    /// Read the record at `key`.
    pub fn get(&self, key: &Identity) -> (r: Option<&V>)
        requires
            self.wf(),
        ensures
            match r {
                Some(v) => self@.contains_key(key@) && v@ == self@[key@],
                None => !self@.contains_key(key@),
            },
    {
        match self.find_index(key) {
            Some(i) => {
                proof {
                    lemma_table_map_index(self.entries@, i as int);
                }
                Some(&self.entries[i].1)
            },
            None => None,
        }
    }

    /// Whether a record exists at `key`.
    pub fn contains(&self, key: &Identity) -> (r: bool)
        requires
            self.wf(),
        ensures
            r == self@.contains_key(key@),
    {
        match self.get(key) {
            Some(_) => true,
            None => false,
        }
    }

    /// Create a record at the fresh address `key`.
    pub fn insert(&mut self, key: Identity, value: V)
        requires
            old(self).wf(),
            !old(self)@.contains_key(key@),
        ensures
            final(self).wf(),
            final(self)@ == old(self)@.insert(key@, value@),
    {
        proof {
            lemma_table_map_contains(self.entries@, key@);
        }
        self.entries.push((key, value));
        proof {
            assert(self.entries@.drop_last() =~= old(self).entries@);
            assert(distinct_keys(self.entries@));
            assert(table_map(self.entries@) == table_map(old(self).entries@).insert(
                key@,
                value@,
            ));
        }
    }

    /// Destroy the record at `key`, handing its value back.
    pub fn remove(&mut self, key: &Identity) -> (r: Option<V>)
        requires
            old(self).wf(),
        ensures
            final(self).wf(),
            match r {
                Some(v) => old(self)@.contains_key(key@) && v@ == old(self)@[key@]
                    && final(self)@ == old(self)@.remove(key@),
                None => !old(self)@.contains_key(key@) && final(self)@ == old(self)@
                    && *final(self) == *old(self),
            },
    {
        match self.find_index(key) {
            Some(i) => {
                proof {
                    lemma_table_map_index(self.entries@, i as int);
                    lemma_table_map_remove(self.entries@, i as int);
                    assert(distinct_keys(self.entries@.remove(i as int))) by {
                        assert forall|a: int, b: int|
                            0 <= a < b < self.entries@.remove(i as int).len() implies self.entries@.remove(
                            i as int,
                        )[a].0@ != self.entries@.remove(i as int)[b].0@ by {
                            let s = self.entries@;
                            let a0 = if a < i { a } else { a + 1 };
                            let b0 = if b < i { b } else { b + 1 };
                            assert(s.remove(i as int)[a] == s[a0]);
                            assert(s.remove(i as int)[b] == s[b0]);
                        }
                    }
                }
                let (_, v) = self.entries.remove(i);
                Some(v)
            },
            None => None,
        }
    }

    /// Replace the record at `key` in place; reports whether one was there.
    pub fn set(&mut self, key: &Identity, value: V) -> (r: bool)
        requires
            old(self).wf(),
        ensures
            final(self).wf(),
            r == old(self)@.contains_key(key@),
            r ==> final(self)@ == old(self)@.insert(key@, value@),
            !r ==> final(self)@ == old(self)@ && *final(self) == *old(self),
    {
        match self.remove(key) {
            Some(_) => {
                self.insert(*key, value);
                proof {
                    assert(old(self)@.remove(key@).insert(key@, value@) =~= old(self)@.insert(
                        key@,
                        value@,
                    ));
                }
                true
            },
            None => false,
        }
    }
}

} // verus!
