//! One workload's metadata: a mapping of namespaced keys to string values,
//! origin-normalized to one schema whether it came from container labels,
//! pod labels, or service-unit environment variables.

use vstd::prelude::*;

use crate::text::str_eq;

verus! {

/// The key/value metadata attached to one managed workload.
///
/// Entries are kept in insertion order; a later entry for the same key
/// shadows an earlier one, exactly as repeated map insertion would.
pub struct Metadata {
    entries: Vec<(String, String)>,
}

/// The value for `key` in an entry sequence: the last entry with that key
/// wins, as with repeated map insertion.
pub open spec fn spec_entries_get(
    s: Seq<(Seq<char>, Seq<char>)>,
    key: Seq<char>,
) -> Option<Seq<char>>
    decreases s.len(),
{
    if s.len() == 0 {
        None
    } else if s.last().0 == key {
        Some(s.last().1)
    } else {
        spec_entries_get(s.drop_last(), key)
    }
}

impl View for Metadata {
    type V = Seq<(Seq<char>, Seq<char>)>;

    closed spec fn view(&self) -> Seq<(Seq<char>, Seq<char>)> {
        Seq::new(self.entries@.len(), |i: int| (self.entries@[i].0@, self.entries@[i].1@))
    }
}

impl Metadata {
    /// The value this metadata holds for `key`, if any.
    pub open spec fn spec_get(&self, key: Seq<char>) -> Option<Seq<char>> {
        spec_entries_get(self@, key)
    }

    /// An empty metadata map.
    pub fn new() -> (r: Metadata)
        ensures
            r@ =~= Seq::<(Seq<char>, Seq<char>)>::empty(),
    {
        Metadata { entries: Vec::new() }
    }

    pub fn len(&self) -> (r: usize)
        ensures
            r == self@.len(),
    {
        self.entries.len()
    }

    /// The key of the entry at position `i`.
    pub fn key_at(&self, i: usize) -> (r: &String)
        requires
            i < self@.len(),
        ensures
            r@ == self@[i as int].0,
    {
        &self.entries[i].0
    }

    /// The value of the entry at position `i`.
    pub fn value_at(&self, i: usize) -> (r: &String)
        requires
            i < self@.len(),
        ensures
            r@ == self@[i as int].1,
    {
        &self.entries[i].1
    }

    /// Add one entry; it shadows any earlier entry with the same key.
    pub fn insert(&mut self, key: String, value: String)
        ensures
            final(self)@ =~= old(self)@.push((key@, value@)),
            forall|k: Seq<char>|
                #[trigger] final(self).spec_get(k) == if k == key@ {
                    Some(value@)
                } else {
                    old(self).spec_get(k)
                },
    {
        let ghost k0 = key@;
        let ghost v0 = value@;
        let ghost s0 = self@;
        self.entries.push((key, value));
        proof {
            assert(self@ =~= s0.push((k0, v0)));
            assert forall|k: Seq<char>|
                #[trigger] self.spec_get(k) == if k == k0 {
                    Some(v0)
                } else {
                    spec_entries_get(s0, k)
                } by {
                assert(self@.last() == (k0, v0));
                assert(self@.drop_last() =~= s0);
            }
        }
    }

    /// Look the key up, returning the most recently inserted value for it.
    pub fn get<'a>(&'a self, key: &str) -> (r: Option<&'a String>)
        ensures
            match r {
                Some(v) => self.spec_get(key@) == Some(v@),
                None => self.spec_get(key@) is None,
            },
    {
        let n = self.entries.len();
        let mut i: usize = n;
        proof {
            assert(self@.subrange(0, n as int) =~= self@);
        }
        while i > 0
            invariant
                0 <= i <= n,
                n == self@.len(),
                spec_entries_get(self@, key@) == spec_entries_get(self@.subrange(0, i as int), key@),
            decreases i,
        {
            proof {
                let p = self@.subrange(0, i as int);
                assert(p.last() == self@[i - 1]);
                assert(p.drop_last() =~= self@.subrange(0, i - 1));
            }
            if str_eq(self.entries[i - 1].0.as_str(), key) {
                return Some(&self.entries[i - 1].1);
            }
            i -= 1;
        }
        proof {
            assert(self@.subrange(0, 0) =~= Seq::<(Seq<char>, Seq<char>)>::empty());
        }
        None
    }

    /// Whether this metadata holds every required key with exactly the
    /// required value — the discovery filter for managed workloads.
    pub fn has_all(&self, required: &Vec<(String, String)>) -> (r: bool)
        ensures
            r == (forall|i: int|
                0 <= i < required@.len() ==> #[trigger] self.spec_get(required@[i].0@) == Some(
                    required@[i].1@,
                )),
    {
        let n = required.len();
        let mut i: usize = 0;
        while i < n
            invariant
                0 <= i <= n,
                n == required@.len(),
                forall|j: int|
                    0 <= j < i ==> #[trigger] self.spec_get(required@[j].0@) == Some(
                        required@[j].1@,
                    ),
            decreases n - i,
        {
            let wanted = &required[i].1;
            match self.get(required[i].0.as_str()) {
                Some(v) => {
                    if !str_eq(v.as_str(), wanted.as_str()) {
                        return false;
                    }
                },
                None => {
                    return false;
                },
            }
            i += 1;
        }
        true
    }
}

} // verus!
