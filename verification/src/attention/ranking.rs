//! Positions in the order of their scores.
use crate::plan::F32;
use vstd::prelude::*;

verus! {

/// A number that orders scores as their values do: both zeros are equal, and what is no number
/// lies beyond the infinity of its sign.
pub open spec fn key(score: F32) -> int {
    if score.bits < 0x8000_0000 {
        score.bits as int
    } else {
        0x8000_0000 - score.bits
    }
}

fn key_of(score: F32) -> (r: i64)
    ensures
        r == key(score),
{
    if score.bits < 0x8000_0000 {
        score.bits as i64
    } else {
        0x8000_0000i64 - score.bits as i64
    }
}

/// Whether position `i` comes no later than position `j`: greater keys first, and equal keys by
/// their positions.
pub open spec fn before(keys: Seq<i64>, i: u32, j: u32) -> bool {
    keys[i as int] > keys[j as int] || (keys[i as int] == keys[j as int] && i <= j)
}

/// The order of positions under `keys`.
pub open spec fn order(keys: Seq<i64>) -> spec_fn(u32, u32) -> bool {
    |i: u32, j: u32| before(keys, i, j)
}

/// The keys of a row of scores.
pub open spec fn keys(row: Seq<F32>) -> Seq<i64> {
    row.map_values(|s: F32| key(s) as i64)
}

/// The first `n` positions.
pub open spec fn positions(n: int) -> Seq<u32> {
    Seq::new(n as nat, |i: int| i as u32)
}

/// All positions of a row of scores, from the highest score to the lowest; equal scores are
/// taken by their positions.
pub open spec fn ranking(row: Seq<F32>) -> Seq<u32> {
    positions(row.len() as int).sort_by(order(keys(row)))
}

/// The order of positions is total.
pub proof fn order_is_total(keys: Seq<i64>)
    ensures
        vstd::relations::total_ordering(order(keys)),
{
}

fn merge(keys: &Vec<i64>, a: &Vec<u32>, b: &Vec<u32>) -> (r: Vec<u32>)
    requires
        vstd::relations::sorted_by(a@, order(keys@)),
        vstd::relations::sorted_by(b@, order(keys@)),
        forall|i: int| 0 <= i < a@.len() ==> a@[i] < keys@.len(),
        forall|i: int| 0 <= i < b@.len() ==> b@[i] < keys@.len(),
    ensures
        vstd::relations::sorted_by(r@, order(keys@)),
        r@.to_multiset() == a@.to_multiset().add(b@.to_multiset()),
        forall|i: int| 0 <= i < r@.len() ==> r@[i] < keys@.len(),
{
    let mut out: Vec<u32> = Vec::new();
    let mut i: usize = 0;
    let mut j: usize = 0;
    let ghost leq = order(keys@);
    proof {
        broadcast use vstd::multiset::group_multiset_axioms;
        broadcast use vstd::seq_lib::group_to_multiset_ensures;

        order_is_total(keys@);
        assert(a@.take(0) =~= Seq::<u32>::empty());
        assert(b@.take(0) =~= Seq::<u32>::empty());
        assert forall|x: u32| Seq::<u32>::empty().to_multiset().count(x) == 0 by {
            assert(!Seq::<u32>::empty().contains(x));
        }
        assert(Seq::<u32>::empty().to_multiset() =~= vstd::multiset::Multiset::<u32>::empty());
        assert(a@.take(0).to_multiset().add(b@.take(0).to_multiset())
            =~= vstd::multiset::Multiset::<u32>::empty());
        assert(out@.to_multiset() =~= vstd::multiset::Multiset::<u32>::empty());
    }
    while i < a.len() || j < b.len()
        invariant
            i <= a@.len(),
            j <= b@.len(),
            leq == order(keys@),
            vstd::relations::total_ordering(leq),
            vstd::relations::sorted_by(a@, leq),
            vstd::relations::sorted_by(b@, leq),
            forall|x: int| 0 <= x < a@.len() ==> a@[x] < keys@.len(),
            forall|x: int| 0 <= x < b@.len() ==> b@[x] < keys@.len(),
            forall|x: int| 0 <= x < out@.len() ==> out@[x] < keys@.len(),
            vstd::relations::sorted_by(out@, leq),
            forall|x: int, y: int|
                0 <= x < out@.len() && i <= y < a@.len() ==> leq(
                    #[trigger] out@[x],
                    #[trigger] a@[y],
                ),
            forall|x: int, y: int|
                0 <= x < out@.len() && j <= y < b@.len() ==> leq(
                    #[trigger] out@[x],
                    #[trigger] b@[y],
                ),
            out@.to_multiset() == a@.take(i as int).to_multiset().add(
                b@.take(j as int).to_multiset(),
            ),
        decreases a@.len() - i + b@.len() - j,
    {
        let from_a: bool = if i == a.len() {
            false
        } else if j == b.len() {
            true
        } else {
            let x: u32 = a[i];
            let y: u32 = b[j];
            keys[x as usize] > keys[y as usize] || (keys[x as usize] == keys[y as usize] && x <= y)
        };
        let ghost kept = out@;
        if from_a {
            let x: u32 = a[i];
            proof {
                if j < b@.len() {
                    assert(leq(x, b@[j as int]));
                }
                assert forall|y: int| j <= y < b@.len() implies leq(x, #[trigger] b@[y]) by {
                    assert(leq(b@[j as int], b@[y]));
                }
                assert(a@.take(i + 1) =~= a@.take(i as int).push(x));
                vstd::seq_lib::to_multiset_build(a@.take(i as int), x);
                vstd::seq_lib::to_multiset_build(kept, x);
            }
            out.push(x);
            i = i + 1;
        } else {
            let x: u32 = b[j];
            proof {
                if i < a@.len() {
                    assert(leq(x, a@[i as int]));
                }
                assert forall|y: int| i <= y < a@.len() implies leq(x, #[trigger] a@[y]) by {
                    assert(leq(a@[i as int], a@[y]));
                }
                assert(b@.take(j + 1) =~= b@.take(j as int).push(x));
                vstd::seq_lib::to_multiset_build(b@.take(j as int), x);
                vstd::seq_lib::to_multiset_build(kept, x);
            }
            out.push(x);
            j = j + 1;
        }
        proof {
            assert(out@.to_multiset() =~= a@.take(i as int).to_multiset().add(
                b@.take(j as int).to_multiset(),
            ));
        }
    }
    assert(a@.take(i as int) =~= a@);
    assert(b@.take(j as int) =~= b@);
    out
}

fn sort(keys: &Vec<i64>, v: &Vec<u32>, from: usize, to: usize) -> (r: Vec<u32>)
    requires
        from <= to <= v@.len(),
        forall|i: int| 0 <= i < v@.len() ==> v@[i] < keys@.len(),
    ensures
        vstd::relations::sorted_by(r@, order(keys@)),
        r@.to_multiset() == v@.subrange(from as int, to as int).to_multiset(),
        forall|i: int| 0 <= i < r@.len() ==> r@[i] < keys@.len(),
    decreases to - from,
{
    proof {
        order_is_total(keys@);
    }
    if to - from <= 1 {
        let mut r: Vec<u32> = Vec::new();
        if to > from {
            r.push(v[from]);
        }
        assert(r@ =~= v@.subrange(from as int, to as int));
        r
    } else {
        let mid: usize = from + (to - from) / 2;
        let a = sort(keys, v, from, mid);
        let b = sort(keys, v, mid, to);
        proof {
            let left = v@.subrange(from as int, mid as int);
            let right = v@.subrange(mid as int, to as int);
            assert(v@.subrange(from as int, to as int) =~= left + right);
            vstd::seq_lib::lemma_multiset_commutative(left, right);
        }
        merge(keys, &a, &b)
    }
}

/// The positions of the row of `n` scores from `base` on, from the highest score to the lowest.
pub fn rank(scores: &Vec<F32>, base: usize, n: u32) -> (r: Vec<u32>)
    requires
        base + n <= scores@.len(),
    ensures
        r@ == ranking(scores@.subrange(base as int, base + n)),
{
    let ghost row = scores@.subrange(base as int, base + n);
    let total: usize = scores.len();
    let mut k: Vec<i64> = Vec::new();
    let mut v: Vec<u32> = Vec::new();
    let mut i: u32 = 0;
    while i < n
        invariant
            i <= n,
            base + n <= total,
            total == scores@.len(),
            row == scores@.subrange(base as int, base + n),
            k@ == keys(row.take(i as int)),
            v@ == positions(i as int),
        decreases n - i,
    {
        k.push(key_of(scores[base + i as usize]));
        v.push(i);
        i = i + 1;
        proof {
            assert(row.take(i as int) =~= row.take(i - 1).push(row[i - 1]));
            assert(k@ =~= keys(row.take(i as int)));
            assert(v@ =~= positions(i as int));
        }
    }
    assert(row.take(n as int) =~= row);
    let len: usize = v.len();
    let r = sort(&k, &v, 0, len);
    proof {
        let leq = order(keys(row));
        order_is_total(keys(row));
        assert(v@.subrange(0, len as int) =~= positions(n as int));
        positions(n as int).lemma_sort_by_ensures(leq);
        vstd::seq_lib::lemma_sorted_unique(r@, ranking(row), leq);
    }
    r
}

/// A ranking names every position of its row once.
pub proof fn ranking_names_each_position_once(row: Seq<F32>)
    requires
        row.len() <= u32::MAX + 1,
    ensures
        ranking(row).len() == row.len(),
        forall|i: u32| i < row.len() ==> ranking(row).contains(i),
        forall|r: int| 0 <= r < ranking(row).len() ==> ranking(row)[r] < row.len(),
        ranking(row).no_duplicates(),
{
    let all = positions(row.len() as int);
    let leq = order(keys(row));
    order_is_total(keys(row));
    all.lemma_sort_by_ensures(leq);
    broadcast use vstd::seq_lib::group_to_multiset_ensures;

    assert(ranking(row).to_multiset().len() == all.to_multiset().len());
    assert forall|i: u32| i < row.len() implies ranking(row).contains(i) by {
        assert(all[i as int] == i);
        assert(all.to_multiset().count(i) > 0);
    }
    assert forall|r: int| 0 <= r < ranking(row).len() implies ranking(row)[r] < row.len() by {
        let x = ranking(row)[r];
        assert(ranking(row).contains(x));
        assert(all.contains(x));
    }
    assert(all.no_duplicates());
    all.lemma_multiset_has_no_duplicates();
    ranking(row).lemma_multiset_has_no_duplicates_conv();
}

/// In a ranking a position never stands before one with a higher score, and of two positions
/// with equal scores the lesser stands first.
pub proof fn ranking_descends(row: Seq<F32>, a: int, b: int)
    requires
        row.len() <= u32::MAX + 1,
        0 <= a < b < ranking(row).len(),
    ensures
        ({
            let x = ranking(row)[a] as int;
            let y = ranking(row)[b] as int;
            key(row[x]) > key(row[y]) || (key(row[x]) == key(row[y]) && x < y)
        }),
{
    let leq = order(keys(row));
    order_is_total(keys(row));
    positions(row.len() as int).lemma_sort_by_ensures(leq);
    ranking_names_each_position_once(row);
    let x = ranking(row)[a];
    let y = ranking(row)[b];
    assert(leq(x, y));
    assert(x != y);
}

} // verus!
