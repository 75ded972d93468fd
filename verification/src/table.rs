//! A small verified association table from `usize` keys to values.
//!
//! Every map a target carries (reference aliasing, instruction locations, the
//! two specification-block maps, pragma scopes) keys its entries by an
//! identifier that is an interned index, so one table type serves them all.
//! The abstract view is a [`Map`]; entries are only ever added, matching the
//! grow-only discipline of the transformation contract.

use vstd::prelude::*;

verus! {

/// Looks `k` up in an entry sequence; the latest entry for a key wins.
pub open spec fn assoc_lookup<V>(s: Seq<(usize, V)>, k: usize) -> Option<V>
    decreases s.len(),
{
    if s.len() == 0 {
        None
    } else if s.last().0 == k {
        Some(s.last().1)
    } else {
        assoc_lookup(s.drop_last(), k)
    }
}

/// Association table from `usize` keys to values of type `V`.
pub struct Table<V> {
    entries: Vec<(usize, V)>,
}

impl<V> Table<V> {
    /// The entry sequence, oldest first.
    pub closed spec fn entry_seq(&self) -> Seq<(usize, V)> {
        self.entries@
    }

    /// The value currently bound to `k`, if any.
    pub open spec fn spec_get(&self, k: usize) -> Option<V> {
        assoc_lookup(self.entry_seq(), k)
    }

    /// Whether `k` is bound.
    pub open spec fn spec_contains(&self, k: usize) -> bool {
        self.spec_get(k) is Some
    }

    /// The empty table.
    pub fn new() -> (t: Table<V>)
        ensures
            t@ == Map::<usize, V>::empty(),
            t.entry_seq() == Seq::<(usize, V)>::empty(),
    {
        let t = Table { entries: Vec::new() };
        proof {
            assert(t@ =~= Map::<usize, V>::empty());
        }
        t
    }

    /// Binds `k` to `v`.  Callers only ever insert fresh keys, so the table
    /// view grows by exactly this binding.
    pub fn insert(&mut self, k: usize, v: V)
        ensures
            final(self).entry_seq() == old(self).entry_seq().push((k, v)),
            final(self)@ == old(self)@.insert(k, v),
    {
        self.entries.push((k, v));
        proof {
            lemma_assoc_lookup_push(old(self).entry_seq(), k, v);
            assert(self@ =~= old(self)@.insert(k, v));
        }
    }

    /// Looks `k` up, returning a reference to the bound value.
    pub fn get(&self, k: usize) -> (r: Option<&V>)
        ensures
            match r {
                Some(v) => self@.contains_key(k) && *v == self@[k],
                None => !self@.contains_key(k),
            },
    {
        assoc_get(&self.entries, k)
    }

    /// The map view answers exactly as the entry lookup does.
    pub proof fn lemma_view_get(&self, k: usize)
        ensures
            self@.contains_key(k) == (self.spec_get(k) is Some),
            self.spec_get(k) is Some ==> self@[k] == self.spec_get(k)->0,
    {
    }

    /// Whether `k` is bound, executably.
    pub fn contains_key(&self, k: usize) -> (r: bool)
        ensures
            r == self@.contains_key(k),
    {
        self.get(k).is_some()
    }
}

/// Looks `k` up in a bare entry vector; the latest entry for a key wins.
pub fn assoc_get<V>(entries: &Vec<(usize, V)>, k: usize) -> (r: Option<&V>)
    ensures
        match r {
            Some(v) => assoc_lookup(entries@, k) == Some(*v),
            None => assoc_lookup(entries@, k) is None,
        },
{
    let mut i: usize = entries.len();
    proof {
        assert(entries@.take(i as int) =~= entries@);
    }
    while i > 0
        invariant
            i <= entries@.len(),
            assoc_lookup(entries@.take(i as int), k) == assoc_lookup(entries@, k),
        decreases i,
    {
        proof {
            assert(entries@.take(i as int).last() == entries@[i - 1]);
            assert(entries@.take(i as int).drop_last() =~= entries@.take(i - 1));
        }
        if entries[i - 1].0 == k {
            return Some(&entries[i - 1].1);
        }
        i = i - 1;
    }
    proof {
        assert(entries@.take(0) =~= Seq::<(usize, V)>::empty());
    }
    None
}

/// Appending an entry rebinds exactly its key and leaves every other key's
/// binding unchanged.
pub proof fn lemma_assoc_lookup_push<V>(s: Seq<(usize, V)>, k: usize, v: V)
    ensures
        forall|j: usize|
            #[trigger] assoc_lookup(s.push((k, v)), j) == if j == k {
                Some(v)
            } else {
                assoc_lookup(s, j)
            },
{
    assert forall|j: usize|
        #[trigger] assoc_lookup(s.push((k, v)), j) == if j == k {
            Some(v)
        } else {
            assoc_lookup(s, j)
        } by {
        assert(s.push((k, v)).last() == (k, v));
        assert(s.push((k, v)).drop_last() =~= s);
    }
}

impl<V> View for Table<V> {
    type V = Map<usize, V>;

    open spec fn view(&self) -> Map<usize, V> {
        Map::new(
            |k: usize| assoc_lookup(self.entry_seq(), k) is Some,
            |k: usize| assoc_lookup(self.entry_seq(), k)->0,
        )
    }
}

} // verus!
