//! The volatility estimator: population variance of a trailing window,
//! with 128-bit sums and saturating accumulation of squared deviations.

use vstd::prelude::*;
use crate::ring::window_seq;

verus! {

/// Sum of a sequence of deltas, as an unbounded integer.
pub open spec fn sum_of(s: Seq<u64>) -> int
    decreases s.len(),
{
    if s.len() == 0 {
        0
    } else {
        sum_of(s.drop_last()) + s.last()
    }
}

/// Saturation at the largest 128-bit value, the behaviour of the
/// accumulator of squared deviations.
pub open spec fn sat_u128(x: int) -> int {
    if x > u128::MAX {
        u128::MAX as int
    } else {
        x
    }
}

/// Absolute difference of two integers.
pub open spec fn abs_diff(a: int, b: int) -> int {
    if a >= b {
        a - b
    } else {
        b - a
    }
}

/// Saturating sum of squared absolute deviations of a window from `avg`:
/// each square is added with saturation at the largest 128-bit value.
pub open spec fn dev_sq_sum(s: Seq<u64>, avg: int) -> int
    decreases s.len(),
{
    if s.len() == 0 {
        0
    } else {
        sat_u128(
            dev_sq_sum(s.drop_last(), avg) + abs_diff(s.last() as int, avg) * abs_diff(
                s.last() as int,
                avg,
            ),
        )
    }
}

/// Population variance of a window: the mean of the saturating sum of
/// squared deviations from the window's own truncated mean.
pub open spec fn variance_of(w: Seq<u64>) -> int
    recommends
        w.len() > 0,
{
    let avg = sum_of(w) / (w.len() as int);
    dev_sq_sum(w, avg) / (w.len() as int)
}

/// The saturating deviation accumulator stays within 128 bits.
pub proof fn lemma_dev_sq_sum_bounds(s: Seq<u64>, avg: int)
    ensures
        0 <= dev_sq_sum(s, avg) <= u128::MAX,
    decreases s.len(),
{
    if s.len() > 0 {
        lemma_dev_sq_sum_bounds(s.drop_last(), avg);
        let d = abs_diff(s.last() as int, avg);
        assert(d * d >= 0) by (nonlinear_arith);
    }
}

/// Computes the population variance of the `depth` most recent ring
/// entries: 128-bit-safe sum, truncated mean, then the mean of the
/// saturating sum of squared deviations.
pub fn compute_window_variance(history: &Vec<u64>, head: u8, depth: u8) -> (m_v: u128)
    requires
        history@.len() == 16,
        head < 16,
        1 <= depth <= 16,
    ensures
        m_v == variance_of(window_seq(history@, head as int, depth as int)),
{
    let ghost w = window_seq(history@, head as int, depth as int);
    assert(w.len() == depth);
    let d = depth as usize;
    let mut sum: u128 = 0;
    let mut i: usize = 0;
    while i < d
        invariant
            i <= d,
            d == depth,
            1 <= depth <= 16,
            head < 16,
            history@.len() == 16,
            w == window_seq(history@, head as int, depth as int),
            w.len() == depth,
            sum == sum_of(w.take(i as int)),
            sum <= i * 0xFFFF_FFFF_FFFF_FFFF,
        decreases d - i,
    {
        let idx = (head as usize + 16 - 1 - i) % 16;
        let val = history[idx];
        proof {
            assert(w[i as int] == history@[(head as int + 16 - 1 - i) % 16]);
            assert(idx == (head as int + 16 - 1 - i) % 16);
            assert(w.take(i + 1 as int).drop_last() =~= w.take(i as int));
            assert(w.take(i + 1 as int).last() == w[i as int]);
            assert((i + 1) * 0xFFFF_FFFF_FFFF_FFFF == i * 0xFFFF_FFFF_FFFF_FFFF
                + 0xFFFF_FFFF_FFFF_FFFF) by (nonlinear_arith);
        }
        sum = sum + val as u128;
        i = i + 1;
    }
    proof {
        assert(w.take(d as int) =~= w);
    }
    let avg: u128 = sum / (depth as u128);
    proof {
        assert(avg == sum_of(w) / (depth as int));
        assert(avg <= 0xFFFF_FFFF_FFFF_FFFFu128) by {
            lemma_avg_le_max(sum as int, depth as int);
        }
    }
    let mut v_sum: u128 = 0;
    i = 0;
    while i < d
        invariant
            i <= d,
            d == depth,
            1 <= depth <= 16,
            head < 16,
            history@.len() == 16,
            w == window_seq(history@, head as int, depth as int),
            w.len() == depth,
            avg <= 0xFFFF_FFFF_FFFF_FFFFu128,
            v_sum == dev_sq_sum(w.take(i as int), avg as int),
        decreases d - i,
    {
        let idx = (head as usize + 16 - 1 - i) % 16;
        let val = history[idx] as u128;
        let diff = if val > avg {
            val - avg
        } else {
            avg - val
        };
        proof {
            assert(diff <= 0xFFFF_FFFF_FFFF_FFFFu128);
            assert(diff * diff <= 0xFFFF_FFFF_FFFF_FFFF * 0xFFFF_FFFF_FFFF_FFFF)
                by (nonlinear_arith)
                requires diff <= 0xFFFF_FFFF_FFFF_FFFFu128;
            lemma_dev_sq_sum_bounds(w.take(i as int), avg as int);
            assert(w[i as int] == history@[(head as int + 16 - 1 - i) % 16]);
            assert(w.take(i + 1 as int).drop_last() =~= w.take(i as int));
            assert(w.take(i + 1 as int).last() == w[i as int]);
            assert(abs_diff(w[i as int] as int, avg as int) == diff);
        }
        let sq = diff * diff;
        v_sum = v_sum.saturating_add(sq);
        i = i + 1;
    }
    proof {
        assert(w.take(d as int) =~= w);
    }
    v_sum / (depth as u128)
}

/// A truncated mean of a sum of at most sixteen deltas never exceeds the
/// largest delta value.
proof fn lemma_avg_le_max(sum: int, depth: int)
    requires
        1 <= depth <= 16,
        0 <= sum,
        sum <= depth * 0xFFFF_FFFF_FFFF_FFFF,
    ensures
        sum / depth <= 0xFFFF_FFFF_FFFF_FFFF,
{
    assert(sum / depth <= 0xFFFF_FFFF_FFFF_FFFF) by (nonlinear_arith)
        requires
            1 <= depth,
            0 <= sum,
            sum <= depth * 0xFFFF_FFFF_FFFF_FFFF,
    ;
}

} // verus!
