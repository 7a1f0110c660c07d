//! A sparse collection of separator lines keyed by row or column index.
//!
//! [`Lines`] is the index-to-line mapping that a theme keeps for its
//! horizontal and vertical overrides and that the full dynamic backend keeps
//! for its registered lines.  Its mathematical view is a finite
//! `Map<usize, T>`; the entries are stored with pairwise distinct keys.

use vstd::prelude::*;

verus! {

/// Whether the keys of a sequence of keyed entries are pairwise distinct.
pub open spec fn unique_keys<T>(s: Seq<(usize, T)>) -> bool {
    forall|i: int, j: int|
        0 <= i < j < s.len() ==> (#[trigger] s[i]).0 != (#[trigger] s[j]).0
}

/// The finite map a sequence of keyed entries denotes; a later entry
/// overwrites an earlier one with the same key.
pub open spec fn entries_map<T>(s: Seq<(usize, T)>) -> Map<usize, T>
    decreases s.len(),
{
    if s.len() == 0 {
        Map::empty()
    } else {
        entries_map(s.drop_last()).insert(s.last().0, s.last().1)
    }
}

/// Extending the entries by one denotes one more map insertion.
pub proof fn lemma_entries_map_push<T>(s: Seq<(usize, T)>, key: usize, value: T)
    ensures
        entries_map(s.push((key, value))) == entries_map(s).insert(key, value),
{
    assert(s.push((key, value)).drop_last() =~= s);
}

/// Walking the entries one step further denotes inserting that entry.
pub proof fn lemma_entries_map_take_step<T>(s: Seq<(usize, T)>, i: int)
    requires
        0 <= i < s.len(),
    ensures
        entries_map(s.take(i + 1)) == entries_map(s.take(i)).insert(s[i].0, s[i].1),
{
    assert(s.take(i + 1).drop_last() =~= s.take(i));
    assert(s.take(i + 1).last() == s[i]);
}

/// A key that occurs in no entry is not in the denoted map.
proof fn lemma_entries_map_no_key<T>(s: Seq<(usize, T)>, key: usize)
    requires
        forall|i: int| 0 <= i < s.len() ==> (#[trigger] s[i]).0 != key,
    ensures
        !entries_map(s).dom().contains(key),
    decreases s.len(),
{
    if s.len() > 0 {
        assert(forall|i: int|
            0 <= i < s.drop_last().len() ==> (#[trigger] s.drop_last()[i]).0 != key);
        lemma_entries_map_no_key(s.drop_last(), key);
    }
}

/// With distinct keys, the entry at any position gives its key's map value.
proof fn lemma_entries_map_found<T>(s: Seq<(usize, T)>, i: int)
    requires
        unique_keys(s),
        0 <= i < s.len(),
    ensures
        entries_map(s).dom().contains(s[i].0),
        entries_map(s)[s[i].0] == s[i].1,
    decreases s.len(),
{
    if i < s.len() - 1 {
        let t = s.drop_last();
        assert(unique_keys(t)) by {
            assert(forall|a: int, b: int|
                0 <= a < b < t.len() ==> (#[trigger] t[a]).0 != (#[trigger] t[b]).0);
        }
        lemma_entries_map_found(t, i);
        assert(s.last().0 != s[i].0);
    }
}

/// With distinct keys, removing the entry at a position removes its key from
/// the denoted map.
proof fn lemma_entries_map_remove<T>(s: Seq<(usize, T)>, i: int)
    requires
        unique_keys(s),
        0 <= i < s.len(),
    ensures
        entries_map(s.remove(i)) == entries_map(s).remove(s[i].0),
    decreases s.len(),
{
    let key = s[i].0;
    if i == s.len() - 1 {
        assert(s.remove(i) =~= s.drop_last());
        assert(forall|a: int|
            0 <= a < s.drop_last().len() ==> (#[trigger] s.drop_last()[a]).0 != key);
        lemma_entries_map_no_key(s.drop_last(), key);
        assert(entries_map(s.drop_last()).insert(key, s[i].1).remove(key)
            =~= entries_map(s.drop_last()));
    } else {
        let t = s.drop_last();
        let last = s.last();
        assert(unique_keys(t)) by {
            assert(forall|a: int, b: int|
                0 <= a < b < t.len() ==> (#[trigger] t[a]).0 != (#[trigger] t[b]).0);
        }
        lemma_entries_map_remove(t, i);
        assert(s.remove(i).last() == last);
        assert(s.remove(i).drop_last() =~= t.remove(i));
        assert(last.0 != key);
        assert(entries_map(t).remove(key).insert(last.0, last.1)
            =~= entries_map(t).insert(last.0, last.1).remove(key));
    }
}

/// A sparse index-to-line collection; the view is the finite map it denotes.
#[derive(Debug, PartialEq, Eq)]
pub struct Lines<T> {
    entries: Vec<(usize, T)>,
}

impl<T> Lines<T> {
    #[verifier::type_invariant]
    spec fn wf(self) -> bool {
        unique_keys(self.entries@)
    }

    /// The stored entries, in insertion order, with pairwise distinct keys.
    pub closed spec fn spec_entries(self) -> Seq<(usize, T)> {
        self.entries@
    }

    /// Builds an empty collection.
    pub fn new() -> (r: Self)
        ensures
            r@ == Map::<usize, T>::empty(),
            r.spec_entries() == Seq::<(usize, T)>::empty(),
    {
        Lines { entries: Vec::new() }
    }

    /// Inserts a line at the given index, overwriting the line already there
    /// if there is one.
    pub fn insert(&mut self, key: usize, value: T)
        ensures
            final(self)@ == old(self)@.insert(key, value),
    {
        proof {
            use_type_invariant(&*self);
        }
        let ghost s0 = self.entries@;
        let mut entries: Vec<(usize, T)> = Vec::new();
        std::mem::swap(&mut entries, &mut self.entries);
        let n = entries.len();
        let mut j: usize = 0;
        while j < n
            invariant
                entries@ == s0,
                n == s0.len(),
                j <= n,
                unique_keys(s0),
                old(self)@ == entries_map(s0),
                forall|jj: int| 0 <= jj < j ==> (#[trigger] s0[jj]).0 != key,
            decreases n - j,
        {
            if entries[j].0 == key {
                proof {
                    assert(forall|a: int|
                        0 <= a < s0.len() && a != j ==> (#[trigger] s0[a]).0 != key);
                    lemma_entries_map_remove(s0, j as int);
                }
                entries.remove(j);
                proof {
                    assert(forall|a: int|
                        0 <= a < entries@.len() ==> (#[trigger] entries@[a]).0 != key);
                    lemma_entries_map_push(s0.remove(j as int), key, value);
                }
                entries.push((key, value));
                proof {
                    assert(unique_keys(entries@)) by {
                        assert(forall|a: int, b: int|
                            0 <= a < b < entries@.len()
                                ==> (#[trigger] entries@[a]).0 != (#[trigger] entries@[b]).0);
                    }
                    assert(entries_map(s0).remove(key).insert(key, value)
                        =~= entries_map(s0).insert(key, value));
                }
                self.entries = entries;
                return ;
            }
            j += 1;
        }
        entries.push((key, value));
        proof {
            assert(unique_keys(entries@)) by {
                assert(forall|a: int, b: int|
                    0 <= a < b < entries@.len()
                        ==> (#[trigger] entries@[a]).0 != (#[trigger] entries@[b]).0);
            }
            lemma_entries_map_push(s0, key, value);
        }
        self.entries = entries;
    }

    /// The number of stored entries.
    pub fn len(&self) -> (r: usize)
        ensures
            r == self.spec_entries().len(),
    {
        self.entries.len()
    }
}

impl<T: Copy> Lines<T> {
    /// Looks the line at the given index up.
    pub fn get(&self, key: usize) -> (r: Option<T>)
        ensures
            r == (if self@.dom().contains(key) {
                Some(self@[key])
            } else {
                None::<T>
            }),
    {
        proof {
            use_type_invariant(&*self);
        }
        let n = self.entries.len();
        let mut j: usize = 0;
        while j < n
            invariant
                n == self.entries@.len(),
                j <= n,
                unique_keys(self.entries@),
                forall|jj: int| 0 <= jj < j ==> (#[trigger] self.entries@[jj]).0 != key,
            decreases n - j,
        {
            if self.entries[j].0 == key {
                proof {
                    lemma_entries_map_found(self.entries@, j as int);
                }
                return Some(self.entries[j].1);
            }
            j += 1;
        }
        proof {
            lemma_entries_map_no_key(self.entries@, key);
        }
        None
    }

    /// The entry at a position of the stored order.
    pub fn entry_at(&self, i: usize) -> (r: (usize, T))
        requires
            i < self.spec_entries().len(),
        ensures
            r == self.spec_entries()[i as int],
    {
        self.entries[i]
    }
}

impl<T> View for Lines<T> {
    type V = Map<usize, T>;

    open spec fn view(&self) -> Map<usize, T> {
        entries_map(self.spec_entries())
    }
}

impl<T: Copy> Clone for Lines<T> {
    /// Clones the collection; the copy denotes the same map.
    fn clone(&self) -> (r: Self)
        ensures
            r@ == self@,
            r.spec_entries() == self.spec_entries(),
    {
        proof {
            use_type_invariant(&*self);
        }
        let n = self.entries.len();
        let mut entries: Vec<(usize, T)> = Vec::new();
        let mut j: usize = 0;
        while j < n
            invariant
                n == self.entries@.len(),
                j <= n,
                entries@ == self.entries@.take(j as int),
            decreases n - j,
        {
            entries.push(self.entries[j]);
            proof {
                assert(entries@ =~= self.entries@.take(j + 1));
            }
            j += 1;
        }
        proof {
            assert(entries@ =~= self.entries@);
        }
        Lines { entries }
    }
}

} // verus!
