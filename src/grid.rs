//! The time axis: exact enumeration of the grid and the optimizer's estimates.

use vstd::arithmetic::div_mod::{
    lemma_fundamental_div_mod, lemma_fundamental_div_mod_converse_div, lemma_mod_multiples_basic,
    lemma_mod_pos_bound,
};
use vstd::prelude::*;

verus! {

/// A timestamp or a duration, in milliseconds.
pub type Millisecond = i64;

/// Size in bytes of one timestamp value.
pub const TIMESTAMP_BYTES: usize = 8;

/// Number of timestamps on the closed grid `start, start + interval, ...` that
/// do not exceed `end`.
pub open spec fn grid_len(start: int, end: int, interval: int) -> int {
    if end < start {
        0
    } else {
        (end - start) / interval + 1
    }
}

/// The `k`-th timestamp of the grid.
pub open spec fn grid_point(start: int, interval: int, k: int) -> int {
    start + k * interval
}

/// The grid as a sequence of timestamps.
pub open spec fn grid_seq(start: int, end: int, interval: int) -> Seq<int> {
    Seq::new(grid_len(start, end, interval) as nat, |k: int| grid_point(start, interval, k))
}

/// The timestamps of a vector, as integers.
pub open spec fn int_view(v: Seq<i64>) -> Seq<int> {
    v.map_values(|t: i64| t as int)
}

/// The optimizer's row-count estimate: `floor((end - start) / interval)`, never
/// below zero, saturated at `usize::MAX`.
pub open spec fn row_estimate(start: int, end: int, interval: int) -> int {
    if end < start {
        0
    } else if (end - start) / interval > usize::MAX {
        usize::MAX as int
    } else {
        (end - start) / interval
    }
}

/// The optimizer's byte-size estimate: the row estimate times the size of one
/// timestamp, saturated at `usize::MAX`.
pub open spec fn byte_estimate(start: int, end: int, interval: int) -> int {
    let bytes = row_estimate(start, end, interval) * TIMESTAMP_BYTES;
    if bytes > usize::MAX {
        usize::MAX as int
    } else {
        bytes
    }
}

/// On a non-empty range the grid holds `floor((end - start) / interval) + 1`
/// points, the `k`-th of them is `start + k * interval`, and the last one is at
/// most `end` and less than one interval before it.
pub proof fn lemma_grid_closed_range(start: int, end: int, interval: int)
    requires
        interval > 0,
        start <= end,
    ensures
        grid_seq(start, end, interval).len() == (end - start) / interval + 1,
        forall|k: int|
            0 <= k < grid_seq(start, end, interval).len() ==> #[trigger] grid_seq(
                start,
                end,
                interval,
            )[k] == start + k * interval,
        grid_seq(start, end, interval).last() <= end,
        end - grid_seq(start, end, interval).last() < interval,
{
    let d = end - start;
    let q = d / interval;
    lemma_fundamental_div_mod(d, interval);
    lemma_mod_pos_bound(d, interval);
    assert(interval * q == q * interval) by (nonlinear_arith);
    assert(grid_seq(start, end, interval).last() == start + q * interval);
}

/// A range that is empty (`end < start`) yields no timestamp at all.
pub proof fn lemma_grid_reversed_range_is_empty(start: int, end: int, interval: int)
    requires
        interval > 0,
        end < start,
    ensures
        grid_seq(start, end, interval).len() == 0,
{
}

/// When `interval` does not divide `end - start`, no grid point equals `end`:
/// the enumeration stops at the last point below it.
pub proof fn lemma_unaligned_grid_misses_end(start: int, end: int, interval: int)
    requires
        interval > 0,
        (end - start) % interval != 0,
    ensures
        forall|k: int|
            0 <= k < grid_seq(start, end, interval).len() ==> #[trigger] grid_seq(
                start,
                end,
                interval,
            )[k] != end && grid_seq(start, end, interval)[k] < end,
{
    assert forall|k: int| 0 <= k < grid_seq(start, end, interval).len() implies #[trigger] grid_seq(
        start,
        end,
        interval,
    )[k] != end && grid_seq(start, end, interval)[k] < end by {
        lemma_grid_closed_range(start, end, interval);
        let q = (end - start) / interval;
        assert(k * interval <= q * interval) by (nonlinear_arith)
            requires
                0 <= k <= q,
                interval > 0,
        ;
        if start + k * interval == end {
            lemma_mod_multiples_basic(k, interval);
            assert(end - start == k * interval);
        }
    }
}

/// Enumerates the grid from `start` to `end` with step `interval`: every
/// `start + k * interval` that is `<= end`, in increasing order. Empty when
/// `end < start`.
pub fn time_grid(start: Millisecond, end: Millisecond, interval: Millisecond) -> (r: Vec<Millisecond>)
    requires
        interval > 0,
    ensures
        r@.len() == grid_len(start as int, end as int, interval as int),
        forall|k: int|
            0 <= k < r@.len() ==> #[trigger] r@[k] == grid_point(start as int, interval as int, k),
        int_view(r@) == grid_seq(start as int, end as int, interval as int),
{
    let mut out: Vec<Millisecond> = Vec::new();
    let mut t: i128 = start as i128;
    proof {
        assert(0 * (interval as int) == 0) by (nonlinear_arith);
    }
    while t <= end as i128
        invariant
            interval > 0,
            t >= start,
            t == start + out@.len() * interval,
            out@.len() == 0 ==> t == start,
            out@.len() > 0 ==> t - interval <= end && start <= end,
            forall|k: int|
                0 <= k < out@.len() ==> #[trigger] out@[k] == grid_point(
                    start as int,
                    interval as int,
                    k,
                ),
        decreases end + interval - t,
    {
        out.push(t as i64);
        proof {
            let n = out@.len() as int;
            assert(start + n * interval == start + (n - 1) * interval + interval)
                by (nonlinear_arith);
        }
        t = t + interval as i128;
    }
    proof {
        let n = out@.len() as int;
        let d = end - start;
        if start <= end {
            assert(n > 0);
            assert(d == (n - 1) * interval + (d - (n - 1) * interval)) by (nonlinear_arith);
            assert((n - 1) * interval + interval == n * interval) by (nonlinear_arith);
            lemma_fundamental_div_mod_converse_div(
                d,
                interval as int,
                n - 1,
                d - (n - 1) * interval,
            );
        }
        assert(int_view(out@) =~= grid_seq(start as int, end as int, interval as int));
    }
    out
}

/// Unless it saturates, the row estimate is at most one below the exact
/// number of grid points.
pub proof fn lemma_row_estimate_within_one(start: int, end: int, interval: int)
    requires
        interval > 0,
        end < start || (end - start) / interval <= usize::MAX,
    ensures
        row_estimate(start, end, interval) <= grid_len(start, end, interval) <= row_estimate(
            start,
            end,
            interval,
        ) + 1,
{
}

/// Row-count estimate for the optimizer, see [`row_estimate`].
pub fn estimated_row_count(start: Millisecond, end: Millisecond, interval: Millisecond) -> (r: usize)
    requires
        interval > 0,
    ensures
        r == row_estimate(start as int, end as int, interval as int),
{
    if end < start {
        0
    } else {
        let q: i128 = (end as i128 - start as i128) / interval as i128;
        if q > usize::MAX as i128 {
            usize::MAX
        } else {
            q as usize
        }
    }
}

/// Byte-size estimate for the optimizer, see [`byte_estimate`].
pub fn estimated_byte_size(start: Millisecond, end: Millisecond, interval: Millisecond) -> (r: usize)
    requires
        interval > 0,
    ensures
        r == byte_estimate(start as int, end as int, interval as int),
{
    let rows = estimated_row_count(start, end, interval);
    if rows > usize::MAX / TIMESTAMP_BYTES {
        usize::MAX
    } else {
        rows * TIMESTAMP_BYTES
    }
}

} // verus!
