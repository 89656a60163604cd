//! A mapping from string keys to values, held as a list of pairs with
//! distinct keys.
//!
//! This is the runtime-side shape of every mapping the adapter touches:
//! configuration key→value associations and per-port data mappings. Its
//! meaning is the association map of its pairs, so inserting with an
//! existing key overwrites that key's value.

use vstd::prelude::*;
use vstd::pervasive::VecAdditionalExecFns;

use crate::assoc::assoc_map;
use crate::assoc::keys_unique;
use crate::assoc::lemma_assoc_map_domain;
use crate::assoc::lemma_assoc_map_push;
use crate::assoc::lemma_assoc_map_update;
use crate::assoc::lemma_assoc_map_value;

verus! {

/// A string-keyed mapping held as a list of key/value pairs.
pub struct StrMap<V> {
    /// The pairs; well-formed when no two share a key.
    pub entries: Vec<(String, V)>,
}

impl<V: View> StrMap<V> {
    /// The held pairs, as views.
    pub open spec fn pairs(&self) -> Seq<(Seq<char>, V::V)> {
        self.entries@.map_values(|p: (String, V)| (p.0@, p.1@))
    }

    /// Well-formedness: no two pairs share a key.
    pub open spec fn wf(&self) -> bool {
        keys_unique(self.pairs())
    }

    /// Creates an empty mapping.
    pub fn new() -> (m: Self)
        ensures
            m.wf(),
            m@ == Map::<Seq<char>, V::V>::empty(),
            m.pairs() == Seq::<(Seq<char>, V::V)>::empty(),
    {
        let m = StrMap { entries: Vec::new() };
        proof {
            assert(m.pairs() =~= Seq::<(Seq<char>, V::V)>::empty());
        }
        m
    }

    /// The number of keys held.
    pub fn len(&self) -> (n: usize)
        ensures
            n == self.pairs().len(),
    {
        self.entries.len()
    }

    /// Associates `key` with `value`, overwriting any value the key held.
    pub fn insert(&mut self, key: String, value: V)
        requires
            old(self).wf(),
        ensures
            final(self).wf(),
            final(self)@ == old(self)@.insert(key@, value@),
    {
        let n = self.entries.len();
        let mut i: usize = 0;
        while i < n
            invariant
                n == self.entries.len(),
                i <= n,
                self.wf(),
                *self == *old(self),
                forall|t: int| 0 <= t < i ==> self.pairs()[t].0 != key@,
            decreases n - i,
        {
            if self.entries[i].0 == key {
                proof {
                    lemma_assoc_map_update(self.pairs(), i as int, key@, value@);
                }
                self.entries.set(i, (key, value));
                proof {
                    assert(self.pairs() =~= old(self).pairs().update(i as int, (key@, value@)));
                }
                return;
            }
            i += 1;
        }
        proof {
            lemma_assoc_map_push(self.pairs(), key@, value@);
        }
        self.entries.push((key, value));
        proof {
            assert(self.pairs() =~= old(self).pairs().push((key@, value@)));
            assert forall|a: int, b: int| 0 <= a < b < self.pairs().len()
                implies self.pairs()[a].0 != self.pairs()[b].0 by {
                if b < self.pairs().len() - 1 {
                    assert(old(self).pairs()[a].0 != old(self).pairs()[b].0);
                } else {
                    assert(self.pairs()[a] == old(self).pairs()[a]);
                }
            }
        }
    }

    /// Looks the key up; the result is the value the mapping associates with
    /// it, if any.
    pub fn get(&self, key: &String) -> (r: Option<&V>)
        requires
            self.wf(),
        ensures
            match r {
                Some(v) => self@.contains_key(key@) && v@ == self@[key@],
                None => !self@.contains_key(key@),
            },
    {
        let n = self.entries.len();
        let mut i: usize = 0;
        while i < n
            invariant
                self.wf(),
                n == self.entries.len(),
                i <= n,
                forall|t: int| 0 <= t < i ==> self.pairs()[t].0 != key@,
            decreases n - i,
        {
            if self.entries[i].0 == *key {
                proof {
                    lemma_assoc_map_value(self.pairs(), i as int);
                }
                return Some(&self.entries[i].1);
            }
            i += 1;
        }
        proof {
            lemma_assoc_map_domain(self.pairs(), key@);
        }
        None
    }
}

impl<V: View> View for StrMap<V> {
    type V = Map<Seq<char>, V::V>;

    open spec fn view(&self) -> Map<Seq<char>, V::V> {
        assoc_map(self.pairs())
    }
}

} // verus!
