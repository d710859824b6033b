//! Orders candidates by decreasing score, keeping the candidates' own order
//! among equal scores. Both scorers rank with it.

use vstd::prelude::*;

verus! {

/// Every index in `idx` points into `keys`.
pub open spec fn indices_in(keys: Seq<u32>, idx: Seq<usize>) -> bool {
    forall|k: int| 0 <= k < idx.len() ==> (#[trigger] idx[k] as int) < keys.len()
}

/// The indices in `idx` are strictly increasing.
pub open spec fn increasing(idx: Seq<usize>) -> bool {
    forall|a: int, b: int| 0 <= a < b < idx.len() ==> #[trigger] idx[a] < #[trigger] idx[b]
}

/// Position, within `idx`, of the first of the greatest keys.
pub open spec fn best_pos(keys: Seq<u32>, idx: Seq<usize>) -> int
    decreases idx.len(),
{
    if idx.len() <= 1 {
        0
    } else {
        let b = best_pos(keys, idx.drop_last());
        if keys[idx.last() as int] > keys[idx[b] as int] {
            idx.len() - 1
        } else {
            b
        }
    }
}

/// `idx` ordered by decreasing key, the earlier in `idx` first among equal
/// keys: repeatedly the first of the greatest that remain.
pub open spec fn rank_from(keys: Seq<u32>, idx: Seq<usize>) -> Seq<usize>
    decreases idx.len(),
    via rank_from_decreases
{
    if idx.len() == 0 {
        Seq::empty()
    } else {
        let b = best_pos(keys, idx);
        seq![idx[b]] + rank_from(keys, idx.remove(b))
    }
}

#[via_fn]
proof fn rank_from_decreases(keys: Seq<u32>, idx: Seq<usize>) {
    if idx.len() > 0 {
        lemma_best_pos_range(keys, idx);
    }
}

/// The indices `0..n`.
pub open spec fn all_indices(n: nat) -> Seq<usize> {
    Seq::new(n, |i: int| i as usize)
}

/// The indices of `keys` by decreasing key, the lower index first among
/// equal keys.
pub open spec fn ranking(keys: Seq<u32>) -> Seq<usize> {
    rank_from(keys, all_indices(keys.len()))
}

proof fn lemma_best_pos_range(keys: Seq<u32>, idx: Seq<usize>)
    requires
        idx.len() > 0,
    ensures
        0 <= best_pos(keys, idx) < idx.len(),
    decreases idx.len(),
{
    if idx.len() > 1 {
        lemma_best_pos_range(keys, idx.drop_last());
    }
}

/// The first of the greatest keys is at least every key, and greater than
/// every key before it.
pub proof fn lemma_best_pos(keys: Seq<u32>, idx: Seq<usize>)
    requires
        idx.len() > 0,
    ensures
        0 <= best_pos(keys, idx) < idx.len(),
        forall|k: int|
            0 <= k < idx.len() ==> keys[#[trigger] idx[k] as int] <= keys[idx[best_pos(
                keys,
                idx,
            )] as int],
        forall|k: int|
            0 <= k < best_pos(keys, idx) ==> keys[#[trigger] idx[k] as int] < keys[idx[best_pos(
                keys,
                idx,
            )] as int],
    decreases idx.len(),
{
    if idx.len() > 1 {
        let d = idx.drop_last();
        lemma_best_pos(keys, d);
        assert forall|k: int| 0 <= k < idx.len() - 1 implies idx[k] == d[k] by {}
    }
}

/// Facts on the elements of `idx.remove(b)`.
proof fn lemma_remove_elems(idx: Seq<usize>, b: int)
    requires
        0 <= b < idx.len(),
    ensures
        forall|k: int|
            0 <= k < idx.len() - 1 ==> (#[trigger] idx.remove(b)[k] == if k < b {
                idx[k]
            } else {
                idx[k + 1]
            }),
        idx.remove(b).len() == idx.len() - 1,
{
    idx.remove_ensures(b);
}

/// A ranking holds each index of `idx` once, by decreasing key, and keeps the
/// order of `idx` among equal keys.
pub proof fn lemma_rank_from(keys: Seq<u32>, idx: Seq<usize>)
    requires
        indices_in(keys, idx),
    ensures
        rank_from(keys, idx).len() == idx.len(),
        forall|i: int|
            0 <= i < idx.len() ==> #[trigger] idx.contains(rank_from(keys, idx)[i]),
        idx.no_duplicates() ==> rank_from(keys, idx).no_duplicates(),
        forall|i: int, j: int|
            0 <= i < j < idx.len() ==> keys[#[trigger] rank_from(keys, idx)[i] as int]
                >= keys[#[trigger] rank_from(keys, idx)[j] as int],
        increasing(idx) ==> forall|i: int, j: int|
            0 <= i < j < idx.len() && keys[#[trigger] rank_from(keys, idx)[i] as int]
                == keys[#[trigger] rank_from(keys, idx)[j] as int] ==> rank_from(keys, idx)[i]
                < rank_from(keys, idx)[j],
    decreases idx.len(),
{
    if idx.len() > 0 {
        let b = best_pos(keys, idx);
        lemma_best_pos(keys, idx);
        let rest = idx.remove(b);
        lemma_remove_elems(idx, b);
        assert(indices_in(keys, rest));
        lemma_rank_from(keys, rest);
        let r = rank_from(keys, idx);
        let rr = rank_from(keys, rest);
        assert(r == seq![idx[b]] + rr);
        assert forall|i: int| 1 <= i < idx.len() implies exists|k: int|
            0 <= k < idx.len() && k != b && #[trigger] r[i] == idx[k] by {
            assert(r[i] == rr[i - 1]);
            assert(rest.contains(rr[i - 1]));
            let k = choose|k: int| 0 <= k < rest.len() && rest[k] == rr[i - 1];
            if k < b {
                assert(r[i] == idx[k]);
            } else {
                assert(r[i] == idx[k + 1]);
            }
        }
        assert forall|i: int| 0 <= i < idx.len() implies #[trigger] idx.contains(r[i]) by {
            if i == 0 {
                assert(r[0] == idx[b]);
            } else {
                let k = choose|k: int| 0 <= k < idx.len() && k != b && #[trigger] r[i] == idx[k];
            }
        }
        if idx.no_duplicates() {
            assert(rest.no_duplicates()) by {
                assert forall|x: int, y: int|
                    0 <= x < rest.len() && 0 <= y < rest.len() && x != y implies rest[x]
                    != rest[y] by {
                    let xi = if x < b { x } else { x + 1 };
                    let yi = if y < b { y } else { y + 1 };
                    assert(rest[x] == idx[xi] && rest[y] == idx[yi]);
                }
            }
            assert forall|x: int, y: int|
                0 <= x < r.len() && 0 <= y < r.len() && x != y implies r[x] != r[y] by {
                if x == 0 && y > 0 {
                    let k = choose|k: int| 0 <= k < idx.len() && k != b && #[trigger] r[y] == idx[k];
                } else if y == 0 && x > 0 {
                    let k = choose|k: int| 0 <= k < idx.len() && k != b && #[trigger] r[x] == idx[k];
                } else if x > 0 && y > 0 {
                    assert(r[x] == rr[x - 1] && r[y] == rr[y - 1]);
                }
            }
        }
        assert forall|i: int, j: int| 0 <= i < j < idx.len() implies keys[#[trigger] r[i] as int]
            >= keys[#[trigger] r[j] as int] by {
            if i == 0 {
                let k = choose|k: int| 0 <= k < idx.len() && k != b && #[trigger] r[j] == idx[k];
            } else {
                assert(r[i] == rr[i - 1] && r[j] == rr[j - 1]);
            }
        }
        if increasing(idx) {
            assert(increasing(rest)) by {
                assert forall|x: int, y: int| 0 <= x < y < rest.len() implies #[trigger] rest[x]
                    < #[trigger] rest[y] by {
                    let xi = if x < b { x } else { x + 1 };
                    let yi = if y < b { y } else { y + 1 };
                    assert(rest[x] == idx[xi] && rest[y] == idx[yi]);
                }
            }
            assert forall|i: int, j: int|
                0 <= i < j < idx.len() && keys[#[trigger] r[i] as int] == keys[#[trigger] r[
                    j
                ] as int] implies r[i] < r[j] by {
                if i == 0 {
                    let k = choose|k: int|
                        0 <= k < idx.len() && k != b && #[trigger] r[j] == idx[k];
                    if k < b {
                        assert(keys[idx[k] as int] < keys[idx[b] as int]);
                    }
                } else {
                    assert(r[i] == rr[i - 1] && r[j] == rr[j - 1]);
                }
            }
        }
    }
}

/// A ranking of `keys` holds each index of `keys` once, by decreasing key,
/// the lower index first among equal keys.
pub proof fn lemma_ranking(keys: Seq<u32>)
    requires
        keys.len() <= usize::MAX,
    ensures
        ranking(keys).len() == keys.len(),
        forall|i: int| 0 <= i < keys.len() ==> (#[trigger] ranking(keys)[i] as int) < keys.len(),
        ranking(keys).no_duplicates(),
        forall|i: int, j: int|
            0 <= i < j < keys.len() ==> keys[#[trigger] ranking(keys)[i] as int]
                >= keys[#[trigger] ranking(keys)[j] as int],
        forall|i: int, j: int|
            0 <= i < j < keys.len() && keys[#[trigger] ranking(keys)[i] as int]
                == keys[#[trigger] ranking(keys)[j] as int] ==> ranking(keys)[i]
                < ranking(keys)[j],
{
    let idx = all_indices(keys.len());
    assert(indices_in(keys, idx));
    assert(increasing(idx));
    assert(idx.no_duplicates());
    lemma_rank_from(keys, idx);
    assert forall|i: int| 0 <= i < keys.len() implies (#[trigger] ranking(keys)[i] as int)
        < keys.len() by {
        assert(idx.contains(ranking(keys)[i]));
    }
}

fn best_pos_exec(keys: &Vec<u32>, idx: &Vec<usize>) -> (b: usize)
    requires
        idx@.len() > 0,
        indices_in(keys@, idx@),
    ensures
        b == best_pos(keys@, idx@),
{
    let mut b: usize = 0;
    let mut i: usize = 1;
    assert(idx@.subrange(0, 1).len() == 1);
    while i < idx.len()
        invariant
            1 <= i <= idx@.len(),
            indices_in(keys@, idx@),
            b == best_pos(keys@, idx@.subrange(0, i as int)),
            b < i,
        decreases idx@.len() - i,
    {
        let ghost pre = idx@.subrange(0, i as int);
        let ghost next = idx@.subrange(0, i + 1);
        assert(next.drop_last() =~= pre);
        assert(next.last() == idx@[i as int]);
        assert(pre[b as int] == idx@[b as int]);
        if keys[idx[i]] > keys[idx[b]] {
            b = i;
        }
        i += 1;
        proof {
            lemma_best_pos_range(keys@, idx@.subrange(0, i as int));
        }
    }
    assert(idx@.subrange(0, idx@.len() as int) =~= idx@);
    b
}

/// The indices of `keys` by decreasing key, the lower index first among
/// equal keys.
pub fn rank_desc(keys: &Vec<u32>) -> (r: Vec<usize>)
    ensures
        r@ == ranking(keys@),
{
    let n = keys.len();
    let mut idx: Vec<usize> = Vec::new();
    let mut i: usize = 0;
    while i < n
        invariant
            n == keys@.len(),
            i <= n,
            idx@ == all_indices(i as nat),
        decreases n - i,
    {
        idx.push(i);
        i += 1;
        assert(idx@ =~= all_indices(i as nat));
    }
    let mut out: Vec<usize> = Vec::new();
    assert(out@ + rank_from(keys@, idx@) =~= ranking(keys@));
    while idx.len() > 0
        invariant
            indices_in(keys@, idx@),
            out@ + rank_from(keys@, idx@) == ranking(keys@),
        decreases idx@.len(),
    {
        let b = best_pos_exec(keys, &idx);
        proof {
            lemma_best_pos_range(keys@, idx@);
            lemma_remove_elems(idx@, b as int);
        }
        let ghost before = idx@;
        let x = idx.remove(b);
        out.push(x);
        assert(out@ + rank_from(keys@, idx@) =~= ranking(keys@)) by {
            assert(rank_from(keys@, before) == seq![x] + rank_from(keys@, idx@));
        }
    }
    assert(out@ =~= ranking(keys@));
    out
}

} // verus!
