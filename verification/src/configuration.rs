//! Marshaling of configuration mappings across the boundary.
//!
//! The runtime hands a node an optional mapping from string keys to string
//! values; the foreign `initialize` receives it as a well-formed (possibly
//! empty) list of key/value pairs. Pair order is arbitrary: only the
//! key→value associations matter, and they survive the round trip whatever
//! order the list ends up in.

use vstd::prelude::*;

use crate::assoc::assoc_map;
use crate::assoc::lemma_assoc_map_order_irrelevant;
use crate::assoc::lemma_assoc_map_push;
use crate::boundary::ZFCxxConfiguration;
use crate::boundary::ZFCxxConfigurationMap;
use crate::boundary::cfg_pairs;
use crate::strmap::StrMap;

verus! {

/// A configuration mapping as the runtime holds it: string keys to string
/// values.
pub type ConfigMap = StrMap<String>;

impl ZFCxxConfigurationMap {
    /// Converts a configuration mapping into its boundary list of pairs,
    /// one pair per key, in the mapping's own order.
    pub fn from(configuration: &ConfigMap) -> (r: Self)
        ensures
            cfg_pairs(r.map@) == configuration.pairs(),
    {
        let mut map: Vec<ZFCxxConfiguration> = Vec::new();
        let n = configuration.entries.len();
        let mut i: usize = 0;
        while i < n
            invariant
                n == configuration.entries.len(),
                i <= n,
                map@.len() == i,
                forall|t: int| 0 <= t < i
                    ==> (#[trigger] map@[t].key@, map@[t].value@) == configuration.pairs()[t],
            decreases n - i,
        {
            let key = configuration.entries[i].0.clone();
            let value = configuration.entries[i].1.clone();
            map.push(ZFCxxConfiguration { key, value });
            i += 1;
        }
        let r = ZFCxxConfigurationMap { map };
        proof {
            assert(cfg_pairs(r.map@) =~= configuration.pairs());
        }
        r
    }

    /// Reads a boundary list back into a configuration mapping, later pairs
    /// winning over earlier ones with the same key.
    pub fn to_map(&self) -> (m: ConfigMap)
        ensures
            m.wf(),
            m@ == assoc_map(cfg_pairs(self.map@)),
    {
        let mut m = ConfigMap::new();
        let n = self.map.len();
        let mut i: usize = 0;
        while i < n
            invariant
                n == self.map.len(),
                i <= n,
                m.wf(),
                m@ == assoc_map(cfg_pairs(self.map@).take(i as int)),
            decreases n - i,
        {
            let key = self.map[i].key.clone();
            let value = self.map[i].value.clone();
            proof {
                lemma_assoc_map_push(cfg_pairs(self.map@).take(i as int), key@, value@);
                assert(cfg_pairs(self.map@).take(i as int).push((key@, value@))
                    =~= cfg_pairs(self.map@).take(i + 1 as int));
            }
            m.insert(key, value);
            i += 1;
        }
        proof {
            assert(cfg_pairs(self.map@).take(n as int) =~= cfg_pairs(self.map@));
        }
        m
    }
}

/// Converts an optional configuration mapping for the foreign `initialize`:
/// an absent configuration becomes the empty list, never an absent sentinel,
/// and a present one keeps its associations pair for pair.
pub fn config_to_boundary(configuration: &Option<ConfigMap>) -> (r: ZFCxxConfigurationMap)
    ensures
        match configuration {
            Some(m) => cfg_pairs(r.map@) == m.pairs(),
            None => r.map@.len() == 0,
        },
{
    match configuration {
        Some(config) => ZFCxxConfigurationMap::from(config),
        None => ZFCxxConfigurationMap { map: Vec::new() },
    }
}

/// Round-trip law: a configuration mapping converted to its boundary list
/// and read back yields exactly the same key→value associations, whatever
/// order the boundary list's pairs are in when they are read.
pub proof fn lemma_config_round_trip(m: ConfigMap, b: ZFCxxConfigurationMap)
    requires
        m.wf(),
        cfg_pairs(b.map@).to_multiset() == m.pairs().to_multiset(),
    ensures
        assoc_map(cfg_pairs(b.map@)) == m@,
{
    lemma_assoc_map_order_irrelevant(m.pairs(), cfg_pairs(b.map@));
}

} // verus!
