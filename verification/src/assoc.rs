//! Keyed items in a sequence, read as a mapping.
//!
//! The store keeps what it holds under text keys in plain vectors. This module says which
//! mapping such a vector stands for, and what pushing, replacing and removing do to it.

use vstd::prelude::*;

verus! {

/// The mapping that a sequence of keyed items stands for: a later item replaces an
/// earlier one of the same key.
pub open spec fn pairs_to_map<V>(pairs: Seq<(Seq<char>, V)>) -> Map<Seq<char>, V>
    decreases pairs.len(),
{
    if pairs.len() == 0 {
        Map::empty()
    } else {
        pairs_to_map(pairs.drop_last()).insert(pairs.last().0, pairs.last().1)
    }
}

/// No key stands twice in `pairs`.
pub open spec fn distinct_keys<V>(pairs: Seq<(Seq<char>, V)>) -> bool {
    forall|i: int, j: int| 0 <= i < j < pairs.len() ==> (#[trigger] pairs[i]).0 != (#[trigger] pairs[j]).0
}

/// A key is in the mapping exactly if some pair has it, and then the mapping gives what
/// the last such pair holds.
pub proof fn lemma_pairs_to_map<V>(pairs: Seq<(Seq<char>, V)>)
    ensures
        pairs_to_map(pairs).dom().finite(),
        forall|i: int| 0 <= i < pairs.len() ==> pairs_to_map(pairs).contains_key(#[trigger] pairs[i].0),
        forall|k: Seq<char>| #[trigger]
            pairs_to_map(pairs).contains_key(k) ==> exists|i: int|
                0 <= i < pairs.len() && (#[trigger] pairs[i]).0 == k && pairs_to_map(pairs)[k]
                    == pairs[i].1,
        distinct_keys(pairs) ==> forall|i: int|
            0 <= i < pairs.len() ==> pairs_to_map(pairs)[(#[trigger] pairs[i]).0] == pairs[i].1,
    decreases pairs.len(),
{
    if pairs.len() > 0 {
        let front = pairs.drop_last();
        lemma_pairs_to_map(front);
        let m = pairs_to_map(pairs);
        let n = pairs.len() - 1;
        assert forall|i: int| 0 <= i < pairs.len() implies m.contains_key(#[trigger] pairs[i].0) by {
            if i < n {
                assert(front[i] == pairs[i]);
            }
        }
        assert forall|k: Seq<char>| #[trigger] m.contains_key(k) implies exists|i: int|
            0 <= i < pairs.len() && (#[trigger] pairs[i]).0 == k && m[k] == pairs[i].1 by {
            if k == pairs.last().0 {
                assert(pairs[n].0 == k && m[k] == pairs[n].1);
            } else {
                assert(pairs_to_map(front).contains_key(k));
                let i = choose|i: int|
                    0 <= i < front.len() && (#[trigger] front[i]).0 == k && pairs_to_map(front)[k]
                        == front[i].1;
                assert(pairs[i].0 == k && m[k] == pairs[i].1);
            }
        }
        if distinct_keys(pairs) {
            assert(distinct_keys(front)) by {
                assert forall|i: int, j: int| 0 <= i < j < front.len() implies (#[trigger] front[i]).0
                    != (#[trigger] front[j]).0 by {
                    assert(front[i] == pairs[i] && front[j] == pairs[j]);
                }
            }
            assert forall|i: int| 0 <= i < pairs.len() implies m[(#[trigger] pairs[i]).0]
                == pairs[i].1 by {
                if i < n {
                    assert(front[i] == pairs[i]);
                    assert(pairs[i].0 != pairs[n].0);
                }
            }
        }
    }
}

/// Where two sequences hold the same keys in the same order, and each item of the second
/// is `f` of its counterpart, the second mapping is the first with `f` applied to what
/// it holds.
pub proof fn lemma_pairs_to_map_values<V, W>(
    a: Seq<(Seq<char>, V)>,
    b: Seq<(Seq<char>, W)>,
    f: spec_fn(V) -> W,
)
    requires
        a.len() == b.len(),
        forall|i: int| 0 <= i < a.len() ==> (#[trigger] b[i]).0 == a[i].0 && b[i].1 == f(a[i].1),
    ensures
        pairs_to_map(b).dom() == pairs_to_map(a).dom(),
        forall|k: Seq<char>| #[trigger]
            pairs_to_map(a).contains_key(k) ==> pairs_to_map(b)[k] == f(pairs_to_map(a)[k]),
    decreases a.len(),
{
    if a.len() > 0 {
        lemma_pairs_to_map_values(a.drop_last(), b.drop_last(), f);
        assert(pairs_to_map(b).dom() =~= pairs_to_map(a).dom());
    }
}

/// Adding a pair at the end sets its key in the mapping. Where the key is new, no key
/// stands twice afterwards if none did before.
pub proof fn lemma_pairs_push<V>(pairs: Seq<(Seq<char>, V)>, key: Seq<char>, item: V)
    ensures
        pairs_to_map(pairs.push((key, item))) == pairs_to_map(pairs).insert(key, item),
        distinct_keys(pairs) && !pairs_to_map(pairs).contains_key(key) ==> distinct_keys(
            pairs.push((key, item)),
        ),
{
    let longer = pairs.push((key, item));
    assert(longer.drop_last() =~= pairs);
    lemma_pairs_to_map(pairs);
    if distinct_keys(pairs) && !pairs_to_map(pairs).contains_key(key) {
        assert forall|i: int, j: int| 0 <= i < j < longer.len() implies (#[trigger] longer[i]).0 != (
        #[trigger] longer[j]).0 by {
            assert(longer[i] == pairs[i]);
            assert(pairs_to_map(pairs).contains_key(pairs[i].0));
            if j < pairs.len() {
                assert(longer[j] == pairs[j]);
            }
        }
    }
}

/// Among pairs of distinct keys, replacing what one pair holds sets its key in the
/// mapping, and the keys stay distinct.
pub proof fn lemma_pairs_update<V>(pairs: Seq<(Seq<char>, V)>, at: int, item: V)
    requires
        distinct_keys(pairs),
        0 <= at < pairs.len(),
    ensures
        pairs_to_map(pairs.update(at, (pairs[at].0, item))) == pairs_to_map(pairs).insert(
            pairs[at].0,
            item,
        ),
        distinct_keys(pairs.update(at, (pairs[at].0, item))),
{
    let key = pairs[at].0;
    let changed = pairs.update(at, (key, item));
    assert forall|i: int, j: int| 0 <= i < j < changed.len() implies (#[trigger] changed[i]).0 != (
    #[trigger] changed[j]).0 by {
        assert(changed[i].0 == pairs[i].0 && changed[j].0 == pairs[j].0);
    }
    lemma_pairs_to_map(pairs);
    lemma_pairs_to_map(changed);
    let before = pairs_to_map(pairs).insert(key, item);
    let after = pairs_to_map(changed);
    assert forall|k: Seq<char>| after.contains_key(k) <==> before.contains_key(k) by {
        if after.contains_key(k) {
            let i = choose|i: int| 0 <= i < changed.len() && (#[trigger] changed[i]).0 == k;
            assert(pairs[i].0 == k);
        }
        if pairs_to_map(pairs).contains_key(k) {
            let i = choose|i: int| 0 <= i < pairs.len() && (#[trigger] pairs[i]).0 == k;
            assert(changed[i].0 == k);
        }
        if k == key {
            assert(changed[at].0 == k);
        }
    }
    assert forall|k: Seq<char>| after.contains_key(k) implies after[k] == before[k] by {
        let i = choose|i: int| 0 <= i < changed.len() && (#[trigger] changed[i]).0 == k;
        assert(after[changed[i].0] == changed[i].1);
        if i != at {
            assert(pairs[i].0 == k);
            assert(pairs_to_map(pairs)[pairs[i].0] == pairs[i].1);
            assert(k != key) by {
                if i < at {
                    assert(pairs[i].0 != pairs[at].0);
                } else {
                    assert(pairs[at].0 != pairs[i].0);
                }
            }
        }
    }
    assert(after =~= before);
}

/// Among pairs of distinct keys, taking one pair out takes its key out of the mapping,
/// and the keys stay distinct.
pub proof fn lemma_pairs_remove<V>(pairs: Seq<(Seq<char>, V)>, at: int)
    requires
        distinct_keys(pairs),
        0 <= at < pairs.len(),
    ensures
        pairs_to_map(pairs.remove(at)) == pairs_to_map(pairs).remove(pairs[at].0),
        distinct_keys(pairs.remove(at)),
{
    let key = pairs[at].0;
    let fewer = pairs.remove(at);
    assert forall|i: int| 0 <= i < fewer.len() implies #[trigger] fewer[i] == pairs[if i < at {
        i
    } else {
        i + 1
    }] by {}
    assert forall|i: int, j: int| 0 <= i < j < fewer.len() implies (#[trigger] fewer[i]).0 != (
    #[trigger] fewer[j]).0 by {
        let a = if i < at { i } else { i + 1 };
        let b = if j < at { j } else { j + 1 };
        assert(fewer[i] == pairs[a] && fewer[j] == pairs[b]);
        assert(pairs[a].0 != pairs[b].0);
    }
    lemma_pairs_to_map(pairs);
    lemma_pairs_to_map(fewer);
    let before = pairs_to_map(pairs).remove(key);
    let after = pairs_to_map(fewer);
    assert forall|k: Seq<char>| after.contains_key(k) <==> before.contains_key(k) by {
        if after.contains_key(k) {
            let i = choose|i: int| 0 <= i < fewer.len() && (#[trigger] fewer[i]).0 == k;
            let a = if i < at { i } else { i + 1 };
            assert(fewer[i] == pairs[a]);
            assert(pairs_to_map(pairs).contains_key(pairs[a].0));
            assert(k != key) by {
                if a < at {
                    assert(pairs[a].0 != pairs[at].0);
                } else {
                    assert(pairs[at].0 != pairs[a].0);
                }
            }
        }
        if before.contains_key(k) {
            let a = choose|a: int| 0 <= a < pairs.len() && (#[trigger] pairs[a]).0 == k;
            let i = if a < at { a } else { a - 1 };
            assert(fewer[i] == pairs[a]);
            assert(after.contains_key(fewer[i].0));
        }
    }
    assert forall|k: Seq<char>| after.contains_key(k) implies after[k] == before[k] by {
        let i = choose|i: int| 0 <= i < fewer.len() && (#[trigger] fewer[i]).0 == k;
        let a = if i < at { i } else { i + 1 };
        assert(fewer[i] == pairs[a]);
        assert(after[fewer[i].0] == fewer[i].1);
        assert(pairs_to_map(pairs)[pairs[a].0] == pairs[a].1);
    }
    assert(after =~= before);
}

} // verus!
