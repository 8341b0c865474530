//! Ranking the rows of a list by a pair of keys, highest first, rows of
//! equal keys in listed order.

use vstd::prelude::*;

verus! {

/// Whether the key `a` stands above the key `b`: by the first part, then
/// by the second.
pub open spec fn key_above(a: (u128, u128), b: (u128, u128)) -> bool {
    a.0 > b.0 || (a.0 == b.0 && a.1 > b.1)
}

/// Whether the row at index `a` is shown before the row at index `b`: the
/// row with the higher key, and of two rows with equal keys the one
/// listed first.
pub open spec fn ranks_before(keys: Seq<(u128, u128)>, a: int, b: int) -> bool {
    key_above(keys[a], keys[b]) || (keys[a] == keys[b] && a < b)
}

/// Whether `order` lists the indices of the rows in the order in which
/// they are shown.
pub open spec fn is_ranking(keys: Seq<(u128, u128)>, order: Seq<usize>) -> bool {
    &&& order.len() == keys.len()
    &&& forall|i: int| 0 <= i < order.len() ==> (#[trigger] order[i]) < keys.len()
    &&& forall|i: int, j: int|
        0 <= i < j < order.len() ==> ranks_before(
            keys,
            #[trigger] order[i] as int,
            #[trigger] order[j] as int,
        )
}

/// Of two different rows, one is shown before the other.
pub proof fn rank_is_total(keys: Seq<(u128, u128)>, a: int, b: int)
    requires
        a != b,
    ensures
        ranks_before(keys, a, b) || ranks_before(keys, b, a),
{
}

/// A row shown before a second, which is shown before a third, is shown
/// before the third.
pub proof fn rank_is_transitive(keys: Seq<(u128, u128)>, a: int, b: int, c: int)
    requires
        ranks_before(keys, a, b),
        ranks_before(keys, b, c),
    ensures
        ranks_before(keys, a, c),
{
}

/// In a ranking no row stands before a row with a higher key, and rows
/// with equal keys keep the order in which they were listed.
pub proof fn ranking_is_stable(keys: Seq<(u128, u128)>, order: Seq<usize>, i: int, j: int)
    requires
        is_ranking(keys, order),
        0 <= i < j < order.len(),
    ensures
        !key_above(keys[order[j] as int], keys[order[i] as int]),
        keys[order[i] as int] == keys[order[j] as int] ==> order[i] < order[j],
        order[i] != order[j],
{
    assert(ranks_before(keys, order[i] as int, order[j] as int));
}

fn goes_before(keys: &Vec<(u128, u128)>, a: usize, b: usize) -> (before: bool)
    requires
        a < keys.len(),
        b < keys.len(),
    ensures
        before == ranks_before(keys@, a as int, b as int),
{
    let x = keys[a];
    let y = keys[b];
    x.0 > y.0 || (x.0 == y.0 && x.1 > y.1) || (x.0 == y.0 && x.1 == y.1 && a < b)
}

/// Ranks the rows by their keys: the indices of the rows, highest key
/// first, rows of equal keys in listed order.
pub fn ranking(keys: &Vec<(u128, u128)>) -> (order: Vec<usize>)
    ensures
        is_ranking(keys@, order@),
{
    let mut order: Vec<usize> = Vec::new();
    let mut k: usize = 0;
    while k < keys.len()
        invariant
            k <= keys.len(),
            order.len() == k,
            forall|i: int| 0 <= i < order.len() ==> (#[trigger] order[i]) < k,
            forall|i: int, j: int|
                0 <= i < j < order.len() ==> ranks_before(
                    keys@,
                    #[trigger] order[i] as int,
                    #[trigger] order[j] as int,
                ),
        decreases keys.len() - k,
    {
        let mut p: usize = 0;
        while p < order.len() && !goes_before(keys, k, order[p])
            invariant
                p <= order.len(),
                k < keys.len(),
                order.len() <= k,
                forall|i: int| 0 <= i < order.len() ==> (#[trigger] order[i]) < k,
                forall|i: int|
                    0 <= i < p ==> !ranks_before(keys@, k as int, #[trigger] order[i] as int),
            decreases order.len() - p,
        {
            p += 1;
        }
        let ghost before = order@;
        order.insert(p, k);
        proof {
            assert(order@ == before.insert(p as int, k));
            assert forall|i: int, j: int| 0 <= i < j < order.len() implies ranks_before(
                keys@,
                #[trigger] order[i] as int,
                #[trigger] order[j] as int,
            ) by {
                if j < p {
                    assert(order[i] == before[i] && order[j] == before[j]);
                } else if j == p {
                    assert(order[i] == before[i]);
                    assert(!ranks_before(keys@, k as int, before[i] as int));
                    rank_is_total(keys@, k as int, before[i] as int);
                } else if i < p {
                    assert(order[i] == before[i] && order[j] == before[j - 1]);
                } else if i == p {
                    assert(order[j] == before[j - 1]);
                    assert(ranks_before(keys@, k as int, before[p as int] as int));
                    if j - 1 > p {
                        assert(ranks_before(keys@, before[p as int] as int, before[j - 1] as int));
                        rank_is_transitive(
                            keys@,
                            k as int,
                            before[p as int] as int,
                            before[j - 1] as int,
                        );
                    }
                } else {
                    assert(order[i] == before[i - 1] && order[j] == before[j - 1]);
                }
            }
            assert forall|i: int| 0 <= i < order.len() implies (#[trigger] order[i]) < k + 1 by {
                if i < p {
                    assert(order[i] == before[i]);
                } else if i > p {
                    assert(order[i] == before[i - 1]);
                }
            }
        }
        k += 1;
    }
    order
}

} // verus!
