//! The keys of a status map in ascending order, and what iterating a
//! `BTreeMap` yields.

use std::collections::BTreeMap;

use vstd::prelude::*;
use vstd::std_specs::btree::increasing_seq;
use vstd::std_specs::cmp::OrdSpec;
use vstd::std_specs::iter::IteratorSpec;

verus! {

/// Every element is smaller than every later one.
pub open spec fn strictly_ascending(s: Seq<u32>) -> bool {
    forall|i: int, j: int| 0 <= i < j < s.len() ==> s[i] < s[j]
}

/// The keys of a map in ascending order: the strictly ascending sequence that
/// holds exactly the keys (there is one for every finite map, and only one).
pub open spec fn ascending_keys(m: Map<u32, u32>) -> Seq<u32> {
    choose|s: Seq<u32>| strictly_ascending(s) && s.to_set() == m.dom()
}

/// The keys of the entries that a map iterator yields.
pub open spec fn entry_keys(s: Seq<(&u32, &u32)>) -> Seq<u32> {
    s.map_values(|p: (&u32, &u32)| *p.0)
}

/// Two strictly ascending sequences with the same elements are equal.
pub proof fn lemma_ascending_unique(a: Seq<u32>, b: Seq<u32>)
    requires
        strictly_ascending(a),
        strictly_ascending(b),
        a.to_set() == b.to_set(),
    ensures
        a == b,
    decreases a.len(),
{
    if a.len() == 0 {
        if b.len() > 0 {
            assert(b.to_set().contains(b[0]));
        }
        assert(b.len() == 0);
    } else {
        assert(a.to_set().contains(a[0]));
        assert(b.len() > 0);
        assert(b.to_set().contains(b[0]));
        let i = choose|i: int| 0 <= i < a.len() && a[i] == b[0];
        let j = choose|j: int| 0 <= j < b.len() && b[j] == a[0];
        assert(a[0] <= a[i]);
        assert(b[0] <= b[j]);
        assert(a[0] == b[0]);
        let a1 = a.drop_first();
        let b1 = b.drop_first();
        assert forall|x: u32| a1.to_set().contains(x) implies b1.to_set().contains(x) by {
            let k = choose|k: int| 0 <= k < a1.len() && a1[k] == x;
            assert(a[k + 1] == x);
            assert(a.to_set().contains(x));
            let l = choose|l: int| 0 <= l < b.len() && b[l] == x;
            assert(x > a[0]);
            assert(l != 0);
            assert(b1[l - 1] == x);
        }
        assert forall|x: u32| b1.to_set().contains(x) implies a1.to_set().contains(x) by {
            let k = choose|k: int| 0 <= k < b1.len() && b1[k] == x;
            assert(b[k + 1] == x);
            assert(b.to_set().contains(x));
            let l = choose|l: int| 0 <= l < a.len() && a[l] == x;
            assert(x > b[0]);
            assert(l != 0);
            assert(a1[l - 1] == x);
        }
        assert(a1.to_set() =~= b1.to_set());
        lemma_ascending_unique(a1, b1);
        assert(a.len() == b.len());
        assert forall|k: int| 0 <= k < a.len() implies a[k] == b[k] by {
            if k > 0 {
                assert(a[k] == a1[k - 1]);
                assert(b[k] == b1[k - 1]);
            }
        }
        assert(a =~= b);
    }
}

/// A map iterator yields every entry once, in ascending key order: its keys
/// are `ascending_keys` of the map, and each comes with its value.
pub proof fn lemma_map_iter_entries(m: &BTreeMap<u32, u32>, all: Seq<(&u32, &u32)>)
    requires
        all == vstd::std_specs::btree::spec_btree_map_iter(m).remaining(),
        increasing_seq(all.map_values(|kv: (&u32, &u32)| *kv.0)),
    ensures
        entry_keys(all) == ascending_keys(m@),
        all.len() == m@.dom().len(),
        forall|i: int| 0 <= i < all.len() ==> m@.contains_key(*all[i].0) && m@[*all[i].0] == *all[i].1,
{
    let ks = entry_keys(all);
    assert(all.map_values(|kv: (&u32, &u32)| *kv.0) == ks);
    assert(vstd::laws_cmp::obeys_cmp::<u32>());
    vstd::std_specs::btree::axiom_increasing_seq_meaning::<u32>(ks);
    assert forall|i: int, j: int| 0 <= i < j < ks.len() implies ks[i] < ks[j] by {
        assert(ks[i].cmp_spec(&ks[j]) is Less);
    }
    assert forall|k: u32| m@.dom().contains(k) implies ks.to_set().contains(k) by {
        assert(all.contains((&k, &m@[k])));
        let i = choose|i: int| 0 <= i < all.len() && all[i] == (&k, &m@[k]);
        assert(ks[i] == k);
    }
    assert forall|k: u32| ks.to_set().contains(k) implies m@.dom().contains(k) by {
        let i = choose|i: int| 0 <= i < ks.len() && ks[i] == k;
        assert(m@.contains_key(*all[i].0));
    }
    assert(ks.to_set() =~= m@.dom());
    assert(strictly_ascending(ks) && ks.to_set() == m@.dom());
    let chosen = ascending_keys(m@);
    assert(strictly_ascending(chosen) && chosen.to_set() == m@.dom());
    lemma_ascending_unique(ks, chosen);
}

} // verus!
