//! Mathematical model of key→value association lists.
//!
//! Boundary structures carry mappings as lists of pairs whose order is
//! arbitrary. This module gives the list its meaning as a `Map` — later
//! pairs win over earlier ones with the same key — and proves that when the
//! keys are distinct the meaning does not depend on the order of the pairs.

use vstd::prelude::*;
use vstd::seq_lib::group_to_multiset_ensures;

verus! {

/// No two pairs of the sequence share a key.
pub open spec fn keys_unique<V>(s: Seq<(Seq<char>, V)>) -> bool {
    forall|i: int, j: int| 0 <= i < j < s.len() ==> s[i].0 != s[j].0
}

/// The key→value associations of a sequence of pairs, later pairs winning
/// over earlier ones with the same key.
pub open spec fn assoc_map<V>(s: Seq<(Seq<char>, V)>) -> Map<Seq<char>, V>
    decreases s.len(),
{
    if s.len() == 0 {
        Map::empty()
    } else {
        assoc_map(s.drop_last()).insert(s.last().0, s.last().1)
    }
}

/// A key is in the association map exactly when some pair of the list
/// carries it.
pub proof fn lemma_assoc_map_domain<V>(s: Seq<(Seq<char>, V)>, k: Seq<char>)
    ensures
        assoc_map(s).contains_key(k) <==> exists|i: int| 0 <= i < s.len() && s[i].0 == k,
    decreases s.len(),
{
    if s.len() > 0 {
        lemma_assoc_map_domain(s.drop_last(), k);
        if s.last().0 == k {
            assert(s[s.len() - 1].0 == k);
        } else if assoc_map(s).contains_key(k) {
            let i = choose|i: int| 0 <= i < s.drop_last().len() && s.drop_last()[i].0 == k;
            assert(s[i].0 == k);
        } else if exists|i: int| 0 <= i < s.len() && s[i].0 == k {
            let i = choose|i: int| 0 <= i < s.len() && s[i].0 == k;
            assert(s.drop_last()[i].0 == k);
        }
    }
}

/// With distinct keys, each pair of the list is found in the association map
/// exactly as written.
pub proof fn lemma_assoc_map_value<V>(s: Seq<(Seq<char>, V)>, i: int)
    requires
        keys_unique(s),
        0 <= i < s.len(),
    ensures
        assoc_map(s).contains_key(s[i].0),
        assoc_map(s)[s[i].0] == s[i].1,
    decreases s.len(),
{
    if i == s.len() - 1 {
    } else {
        assert(keys_unique(s.drop_last())) by {
            assert(forall|a: int, b: int|
                0 <= a < b < s.drop_last().len() ==> s.drop_last()[a].0 == s[a].0
                    && s.drop_last()[b].0 == s[b].0);
        }
        lemma_assoc_map_value(s.drop_last(), i);
        assert(s.drop_last()[i] == s[i]);
        assert(s[i].0 != s.last().0);
    }
}

/// Appending a pair inserts its association into the map.
pub proof fn lemma_assoc_map_push<V>(s: Seq<(Seq<char>, V)>, k: Seq<char>, v: V)
    ensures
        assoc_map(s.push((k, v))) == assoc_map(s).insert(k, v),
{
    assert(s.push((k, v)).drop_last() =~= s);
    assert(s.push((k, v)).last() == (k, v));
}

/// Replacing the pair that carries a key overwrites that key's association
/// and nothing else.
pub proof fn lemma_assoc_map_update<V>(s: Seq<(Seq<char>, V)>, j: int, k: Seq<char>, v: V)
    requires
        keys_unique(s),
        0 <= j < s.len(),
        s[j].0 == k,
    ensures
        keys_unique(s.update(j, (k, v))),
        assoc_map(s.update(j, (k, v))) == assoc_map(s).insert(k, v),
{
    let t = s.update(j, (k, v));
    assert(forall|i: int| 0 <= i < s.len() ==> t[i].0 == s[i].0);
    assert(keys_unique(t));
    assert forall|k2: Seq<char>|
        assoc_map(t).contains_key(k2) <==> assoc_map(s).insert(k, v).contains_key(k2) by {
        lemma_assoc_map_domain(t, k2);
        lemma_assoc_map_domain(s, k2);
        if k2 == k {
            assert(t[j].0 == k2);
        }
    }
    assert forall|k2: Seq<char>| #[trigger]
        assoc_map(t).contains_key(k2) implies assoc_map(t)[k2] == assoc_map(s).insert(k, v)[k2] by {
        lemma_assoc_map_domain(t, k2);
        let i = choose|i: int| 0 <= i < t.len() && t[i].0 == k2;
        lemma_assoc_map_value(t, i);
        if k2 == k {
            assert(i == j) by {
                if i != j {
                    assert(t[i].0 == t[j].0);
                }
            }
            assert(assoc_map(t)[k2] == v);
        } else {
            assert(i != j);
            assert(t[i] == s[i]);
            lemma_assoc_map_value(s, i);
        }
    }
    assert(assoc_map(t) =~= assoc_map(s).insert(k, v));
}

/// With distinct keys, the association map does not depend on the order of
/// the pairs: any rearrangement of the list carries distinct keys as well
/// and means the same map.
pub proof fn lemma_assoc_map_order_irrelevant<V>(s1: Seq<(Seq<char>, V)>, s2: Seq<(Seq<char>, V)>)
    requires
        keys_unique(s1),
        s1.to_multiset() == s2.to_multiset(),
    ensures
        keys_unique(s2),
        assoc_map(s1) == assoc_map(s2),
{
    broadcast use group_to_multiset_ensures;

    assert(s1.no_duplicates()) by {
        assert forall|i: int, j: int| 0 <= i < s1.len() && 0 <= j < s1.len() && i != j
            implies s1[i] != s1[j] by {
            if i < j {
                assert(s1[i].0 != s1[j].0);
            } else {
                assert(s1[j].0 != s1[i].0);
            }
        }
    }
    s1.lemma_multiset_has_no_duplicates();
    s2.lemma_multiset_has_no_duplicates_conv();

    assert forall|i: int, j: int| 0 <= i < j < s2.len() implies s2[i].0 != s2[j].0 by {
        if s2[i].0 == s2[j].0 {
            assert(s2[i] != s2[j]);
            assert(s2.contains(s2[i]));
            assert(s2.contains(s2[j]));
            assert(s2.to_multiset().count(s2[i]) > 0);
            assert(s2.to_multiset().count(s2[j]) > 0);
            assert(s1.to_multiset().count(s2[i]) > 0);
            assert(s1.to_multiset().count(s2[j]) > 0);
            assert(s1.contains(s2[i]));
            assert(s1.contains(s2[j]));
            let a = choose|a: int| 0 <= a < s1.len() && s1[a] == s2[i];
            let b = choose|b: int| 0 <= b < s1.len() && s1[b] == s2[j];
            assert(a != b);
            if a < b {
                assert(s1[a].0 != s1[b].0);
            } else {
                assert(s1[b].0 != s1[a].0);
            }
        }
    }
    assert(keys_unique(s2));

    assert forall|k: Seq<char>|
        assoc_map(s1).contains_key(k) <==> assoc_map(s2).contains_key(k) by {
        lemma_assoc_map_domain(s1, k);
        lemma_assoc_map_domain(s2, k);
        if exists|i: int| 0 <= i < s1.len() && s1[i].0 == k {
            let i = choose|i: int| 0 <= i < s1.len() && s1[i].0 == k;
            assert(s1.contains(s1[i]));
            assert(s1.to_multiset().count(s1[i]) > 0);
            assert(s2.to_multiset().count(s1[i]) > 0);
            assert(s2.contains(s1[i]));
            let j = choose|j: int| 0 <= j < s2.len() && s2[j] == s1[i];
            assert(s2[j].0 == k);
        }
        if exists|j: int| 0 <= j < s2.len() && s2[j].0 == k {
            let j = choose|j: int| 0 <= j < s2.len() && s2[j].0 == k;
            assert(s2.contains(s2[j]));
            assert(s2.to_multiset().count(s2[j]) > 0);
            assert(s1.to_multiset().count(s2[j]) > 0);
            assert(s1.contains(s2[j]));
            let i = choose|i: int| 0 <= i < s1.len() && s1[i] == s2[j];
            assert(s1[i].0 == k);
        }
    }
    assert forall|k: Seq<char>| #[trigger]
        assoc_map(s1).contains_key(k) implies assoc_map(s1)[k] == assoc_map(s2)[k] by {
        lemma_assoc_map_domain(s1, k);
        let i = choose|i: int| 0 <= i < s1.len() && s1[i].0 == k;
        lemma_assoc_map_value(s1, i);
        assert(s1.contains(s1[i]));
        assert(s1.to_multiset().count(s1[i]) > 0);
        assert(s2.to_multiset().count(s1[i]) > 0);
        assert(s2.contains(s1[i]));
        let j = choose|j: int| 0 <= j < s2.len() && s2[j] == s1[i];
        lemma_assoc_map_value(s2, j);
    }
    assert(assoc_map(s1) =~= assoc_map(s2));
}

} // verus!
