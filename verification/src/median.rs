//! Median-based calibration: sorting the first sixteen collected deltas
//! and taking the lower median as the baseline threshold.

use vstd::prelude::*;
use vstd::relations::{sorted_by, total_ordering};
use vstd::seq_lib::{lemma_sorted_unique, group_to_multiset_ensures, to_multiset_update};

verus! {

/// The ordering the calibration sort uses: plain `<=` on deltas.
pub open spec fn u64_le() -> spec_fn(u64, u64) -> bool {
    |x: u64, y: u64| x <= y
}

/// `<=` on 64-bit deltas is a total ordering.
pub proof fn lemma_u64_le_total()
    ensures
        total_ordering(u64_le()),
{
}

/// The lower median of sixteen collected deltas: the element at index
/// eight of the sorted sequence.
pub open spec fn median_of(h: Seq<u64>) -> u64
    recommends
        h.len() == 16,
{
    h.sort_by(u64_le())[8]
}

/// Sorts a buffer of deltas in place by insertion sort: the result is
/// ordered and holds exactly the same multiset of values.
fn sort_deltas(v: &mut Vec<u64>)
    ensures
        final(v)@.len() == old(v)@.len(),
        sorted_by(final(v)@, u64_le()),
        final(v)@.to_multiset() == old(v)@.to_multiset(),
{
    broadcast use to_multiset_update;

    let n = v.len();
    let mut i: usize = 1;
    while i < n
        invariant
            1 <= i,
            n == v@.len(),
            v@.to_multiset() == old(v)@.to_multiset(),
            forall|p: int, q: int| 0 <= p < q < i ==> v@[p] <= v@[q],
        decreases n - i,
    {
        let mut j: usize = i;
        while j > 0 && v[j - 1] > v[j]
            invariant
                j <= i,
                i < n,
                n == v@.len(),
                v@.to_multiset() == old(v)@.to_multiset(),
                forall|p: int, q: int|
                    0 <= p < q <= i && q != j ==> v@[p] <= v@[q],
            decreases j,
        {
            let ghost before = v@;
            let a = v[j - 1];
            let b = v[j];
            v.set(j - 1, b);
            v.set(j, a);
            proof {
                broadcast use group_to_multiset_ensures;
                broadcast use vstd::multiset::group_multiset_axioms;

                assert(v@ == before.update(j - 1, b).update(j as int, a));
                let m0 = before.to_multiset();
                assert(before[j - 1] == a);
                assert(before.contains(a));
                assert(m0.count(a) > 0);
                let m1 = before.update(j - 1, b).to_multiset();
                assert(m1 == m0.insert(b).remove(a));
                assert(before.update(j - 1, b)[j as int] == b);
                assert(v@.to_multiset() == m1.insert(a).remove(b));
                assert(v@.to_multiset() =~= m0);
            }
            j = j - 1;
        }
        i = i + 1;
    }
    proof {
        if n > 0 {
            assert(forall|p: int, q: int| 0 <= p < q < n ==> v@[p] <= v@[q]);
        }
        assert(sorted_by(v@, u64_le()));
    }
}

/// The lower median of a full sixteen-entry collection buffer: sorts a
/// copy and returns the element at index eight. The buffer handed in is
/// left as it is.
pub fn median_of_samples(h: &Vec<u64>) -> (m: u64)
    requires
        h@.len() == 16,
    ensures
        m == median_of(h@),
{
    let mut buf: Vec<u64> = Vec::new();
    let mut i: usize = 0;
    while i < 16
        invariant
            i <= 16,
            h@.len() == 16,
            buf@ == h@.take(i as int),
        decreases 16 - i,
    {
        buf.push(h[i]);
        proof {
            assert(h@.take(i + 1 as int) =~= h@.take(i as int).push(h@[i as int]));
        }
        i = i + 1;
    }
    proof {
        assert(buf@ =~= h@);
    }
    sort_deltas(&mut buf);
    proof {
        lemma_u64_le_total();
        h@.lemma_sort_by_ensures(u64_le());
        lemma_sorted_unique(buf@, h@.sort_by(u64_le()), u64_le());
        assert(buf@ =~= h@.sort_by(u64_le()));
    }
    buf[8]
}

} // verus!
