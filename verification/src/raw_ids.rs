//! Sets of raw 64-bit identities kept in `BTreeSet`s.

use std::collections::BTreeSet;

use vstd::laws_cmp::obeys_cmp;
use vstd::prelude::*;
use vstd::std_specs::btree::{axiom_increasing_seq_meaning, increasing_seq, spec_btree_keys_iter};
use vstd::std_specs::cmp::OrdSpec;
use vstd::std_specs::iter::IteratorSpec;

verus! {

/// Raw IDs compare as the integers they are.
pub open spec fn raw_ids_ordered() -> bool {
    obeys_cmp::<u64>()
}

/// A set of raw IDs is walked in strictly increasing order, once per member.
pub proof fn lemma_keys_in_order(set: &BTreeSet<u64>)
    ensures
        ({
            let keys = spec_btree_keys_iter(set).remaining();
            &&& forall|i: int, j: int| 0 <= i < j < keys.len() ==> *keys[i] < *keys[j]
            &&& forall|i: int| 0 <= i < keys.len() ==> set@.contains(*keys[i])
            &&& forall|x: u64| set@.contains(x) ==> exists|i: int| 0 <= i < keys.len() && *keys[i] == x
        }),
{
    let keys = spec_btree_keys_iter(set).remaining();
    assert(keys.unref().to_set() == set@);
    assert(obeys_cmp::<u64>());
    assert(obeys_cmp::<&u64>());
    assert(increasing_seq(keys));
    axiom_increasing_seq_meaning::<&u64>(keys);
    assert forall|i: int, j: int| 0 <= i < j < keys.len() implies *keys[i] < *keys[j] by {
        assert(OrdSpec::cmp_spec(&keys[i], &keys[j]) is Less);
    }
    assert forall|i: int| 0 <= i < keys.len() implies set@.contains(*keys[i]) by {
        assert(keys.unref()[i] == *keys[i]);
        assert(keys.unref().contains(*keys[i]));
    }
    assert forall|x: u64| set@.contains(x) implies exists|i: int| 0 <= i < keys.len() && *keys[i] == x by {
        assert(keys.unref().to_set().contains(x));
        let i = choose|i: int| 0 <= i < keys.unref().len() && keys.unref()[i] == x;
        assert(*keys[i] == x);
    }
}

/// Inserts every member of `from` into `into`.
pub fn insert_all(into: &mut BTreeSet<u64>, from: &BTreeSet<u64>)
    ensures
        final(into)@ == old(into)@.union(from@),
{
    proof {
        lemma_keys_in_order(from);
    }
    assert(raw_ids_ordered());
    let ghost keys = spec_btree_keys_iter(from).remaining();
    let ghost start = into@;
    for raw in it: from.iter()
        invariant
            it.seq() == keys,
            keys == spec_btree_keys_iter(from).remaining(),
            raw_ids_ordered(),
            into@ == start.union(Set::new(|x: u64| exists|k: int| 0 <= k < it.index() && *keys[k] == x)),
    {
        into.insert(*raw);
        proof {
            assert(into@ =~= start.union(Set::new(|x: u64| exists|k: int| 0 <= k < it.index() + 1 && *keys[k] == x)));
        }
    }
    proof {
        assert(into@ =~= start.union(from@));
    }
}

} // verus!
