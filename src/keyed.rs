use vstd::prelude::*;

verus! {

/// Folds (key, value) pairs into a map; a later pair replaces an earlier
/// one with the same key, as a later member of a JSON object does.
pub open spec fn pairs_to_map<V>(pairs: Seq<(Seq<char>, V)>) -> Map<Seq<char>, V>
    decreases pairs.len(),
{
    if pairs.len() == 0 {
        Map::empty()
    } else {
        pairs_to_map(pairs.drop_last()).insert(pairs.last().0, pairs.last().1)
    }
}

/// The first components of `pairs` are pairwise different.
pub open spec fn keys_distinct<V>(pairs: Seq<(Seq<char>, V)>) -> bool {
    forall|i: int, j: int|
        0 <= i < pairs.len() && 0 <= j < pairs.len() && i != j ==> pairs[i].0 != pairs[j].0
}

/// A key is in the map exactly when some pair carries it.
pub proof fn lemma_pairs_to_map_keys<V>(pairs: Seq<(Seq<char>, V)>, k: Seq<char>)
    ensures
        pairs_to_map(pairs).contains_key(k) <==> exists|i: int| 0 <= i < pairs.len() && pairs[i].0 == k,
    decreases pairs.len(),
{
    if pairs.len() > 0 {
        let init = pairs.drop_last();
        lemma_pairs_to_map_keys(init, k);
        if pairs_to_map(pairs).contains_key(k) {
            if k != pairs.last().0 {
                let i = choose|i: int| 0 <= i < init.len() && init[i].0 == k;
                assert(pairs[i].0 == k);
            } else {
                assert(pairs[pairs.len() - 1].0 == k);
            }
        }
        if exists|i: int| 0 <= i < pairs.len() && pairs[i].0 == k {
            let i = choose|i: int| 0 <= i < pairs.len() && pairs[i].0 == k;
            if i < pairs.len() - 1 {
                assert(init[i].0 == k);
            }
        }
    }
}

/// With distinct keys, each pair's value is the map's value at its key.
pub proof fn lemma_pairs_to_map_value<V>(pairs: Seq<(Seq<char>, V)>, i: int)
    requires
        keys_distinct(pairs),
        0 <= i < pairs.len(),
    ensures
        pairs_to_map(pairs).contains_key(pairs[i].0),
        pairs_to_map(pairs)[pairs[i].0] == pairs[i].1,
    decreases pairs.len(),
{
    let init = pairs.drop_last();
    if i < pairs.len() - 1 {
        assert(init[i] == pairs[i]);
        lemma_pairs_to_map_value(init, i);
        assert(pairs[i].0 != pairs.last().0);
    }
}

/// With distinct keys, replacing one pair's value replaces the map's value at its key.
pub proof fn lemma_pairs_to_map_update<V>(pairs: Seq<(Seq<char>, V)>, j: int, v: V)
    requires
        keys_distinct(pairs),
        0 <= j < pairs.len(),
    ensures
        pairs_to_map(pairs.update(j, (pairs[j].0, v))) == pairs_to_map(pairs).insert(pairs[j].0, v),
    decreases pairs.len(),
{
    let k = pairs[j].0;
    let upd = pairs.update(j, (k, v));
    if j == pairs.len() - 1 {
        assert(upd.drop_last() =~= pairs.drop_last());
        assert(pairs_to_map(upd) =~= pairs_to_map(pairs).insert(k, v));
    } else {
        let init = pairs.drop_last();
        assert(upd.drop_last() =~= init.update(j, (k, v)));
        lemma_pairs_to_map_update(init, j, v);
        assert(init[j] == pairs[j]);
        assert(pairs.last().0 != k);
        assert(pairs_to_map(upd) =~= pairs_to_map(pairs).insert(k, v));
    }
}

/// With distinct keys, the map has as many keys as there are pairs.
pub proof fn lemma_pairs_to_map_len<V>(pairs: Seq<(Seq<char>, V)>)
    requires
        keys_distinct(pairs),
    ensures
        pairs_to_map(pairs).dom().finite(),
        pairs_to_map(pairs).dom().len() == pairs.len(),
    decreases pairs.len(),
{
    if pairs.len() > 0 {
        let init = pairs.drop_last();
        assert(keys_distinct(init)) by {
            assert forall|i: int, j: int| 0 <= i < init.len() && 0 <= j < init.len() && i != j implies init[i].0
                != init[j].0 by {
                assert(init[i] == pairs[i] && init[j] == pairs[j]);
            }
        }
        lemma_pairs_to_map_len(init);
        lemma_pairs_to_map_keys(init, pairs.last().0);
        if pairs_to_map(init).contains_key(pairs.last().0) {
            let i = choose|i: int| 0 <= i < init.len() && init[i].0 == pairs.last().0;
            assert(pairs[i].0 == pairs[pairs.len() - 1].0);
        }
        assert(pairs_to_map(pairs).dom() =~= pairs_to_map(init).dom().insert(pairs.last().0));
    }
}

} // verus!
