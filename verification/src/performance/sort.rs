//! Sorting of duration samples and nearest-rank percentiles over them.

use vstd::prelude::*;

verus! {

broadcast use vstd::seq_lib::group_to_multiset_ensures;

/// The samples from index `lo` up to `hi` are in ascending order.
pub open spec fn sorted_range(s: Seq<u64>, lo: int, hi: int) -> bool {
    forall|a: int, b: int| lo <= a < b < hi ==> #[trigger] s[a] <= #[trigger] s[b]
}

/// The samples are in ascending order.
pub open spec fn is_sorted(s: Seq<u64>) -> bool {
    sorted_range(s, 0, s.len() as int)
}

/// `sorted` is `samples` in ascending order.
pub open spec fn is_sorted_permutation(samples: Seq<u64>, sorted: Seq<u64>) -> bool {
    &&& is_sorted(sorted)
    &&& sorted.to_multiset() == samples.to_multiset()
    &&& sorted.len() == samples.len()
}

/// The nearest rank of `percentile` among `len` samples: `ceil(len * percentile / 100)`,
/// kept between 1 and `len`.
pub open spec fn nearest_rank(len: nat, percentile: nat) -> nat {
    let rank = (len * percentile + 99) / 100;
    if rank < 1 {
        1
    } else if rank > len {
        len
    } else {
        rank
    }
}

/// Swaps the two neighbours at `j - 1` and `j`.
fn swap_neighbours(v: &mut Vec<u64>, j: usize)
    requires
        0 < j < old(v)@.len(),
    ensures
        final(v)@ == old(v)@.update(j - 1, old(v)@[j as int]).update(j as int, old(v)@[j - 1]),
        final(v)@.to_multiset() == old(v)@.to_multiset(),
{
    let left = v[j - 1];
    let right = v[j];
    let ghost s0 = v@;
    v.set(j - 1, right);
    let ghost s1 = v@;
    v.set(j, left);
    proof {
        vstd::seq_lib::to_multiset_update(s0, j - 1, right);
        vstd::seq_lib::to_multiset_update(s1, j as int, left);
        assert(s0.to_multiset().insert(right).remove(left).insert(left).remove(right)
            =~= s0.to_multiset());
    }
}

/// Sorts the samples in ascending order, in place.
pub fn sort_samples(v: &mut Vec<u64>)
    ensures
        is_sorted_permutation(old(v)@, final(v)@),
{
    let n = v.len();
    if n == 0 {
        return;
    }
    let mut i: usize = 1;
    while i < n
        invariant
            n == v@.len(),
            1 <= i <= n,
            sorted_range(v@, 0, i as int),
            v@.to_multiset() == old(v)@.to_multiset(),
        decreases n - i,
    {
        let mut j: usize = i;
        while j > 0 && v[j - 1] > v[j]
            invariant
                n == v@.len(),
                0 <= j <= i < n,
                sorted_range(v@, 0, j as int),
                sorted_range(v@, j as int, i + 1),
                forall|a: int, b: int| 0 <= a < j < b <= i ==> #[trigger] v@[a] <= #[trigger] v@[b],
                v@.to_multiset() == old(v)@.to_multiset(),
            decreases j,
        {
            swap_neighbours(v, j);
            j = j - 1;
        }
        proof {
            assert forall|a: int, b: int| 0 <= a < b < i + 1 implies #[trigger] v@[a]
                <= #[trigger] v@[b] by {
                if a < j && b == j {
                    assert(v@[a] <= v@[j - 1]);
                }
            }
        }
        i = i + 1;
    }
}

/// Sorts the samples and returns the nearest-rank `percentile` of them; `None` when
/// there are none.
pub fn percentile_sample(samples: &mut Vec<u64>, percentile: usize) -> (res: Option<u64>)
    requires
        old(samples)@.len() * percentile <= usize::MAX,
    ensures
        is_sorted_permutation(old(samples)@, final(samples)@),
        old(samples)@.len() == 0 ==> res is None,
        old(samples)@.len() > 0 ==> res == Some(
            final(samples)@[nearest_rank(old(samples)@.len(), percentile as nat) - 1],
        ),
{
    sort_samples(samples);
    let len = samples.len();
    if len == 0 {
        return None;
    }
    let scaled = len * percentile;
    let mut rank = scaled / 100;
    if scaled % 100 != 0 {
        rank = rank + 1;
    }
    assert(rank == (scaled + 99) / 100);
    if rank < 1 {
        rank = 1;
    }
    if rank > len {
        rank = len;
    }
    Some(samples[rank - 1])
}

} // verus!
