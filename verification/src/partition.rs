//! Splitting a time interval into evenly spaced activation points.

use vstd::arithmetic::div_mod::{
    lemma_div_pos_is_pos, lemma_fundamental_div_mod, lemma_mod_bound,
};
use vstd::prelude::*;

verus! {

/// Truncating (round-toward-zero) division by a positive divisor: the
/// behaviour of Rust's `/` on signed integers.
pub open spec fn tdiv_pos(a: int, b: int) -> int
    recommends
        b > 0,
{
    if a >= 0 {
        a / b
    } else {
        -((-a) / b)
    }
}

/// The distance between consecutive activation points when the span from
/// `start` to `end` is divided into `count` chunks of equal truncated width.
pub open spec fn step_of(start: int, end: int, count: int) -> int
    recommends
        count > 0,
{
    tdiv_pos(end - start, count)
}

/// The activation points `start + step, start + 2*step, ..., start + count*step`.
/// The interval's start instant itself is never emitted.
pub open spec fn partition_spec(start: int, end: int, count: int) -> Seq<int> {
    Seq::new(count as nat, |i: int| start + (i + 1) * step_of(start, end, count))
}

/// Truncating division by a positive divisor keeps the sign of the dividend,
/// and multiplying the quotient back never overshoots the dividend.
proof fn lemma_tdiv_pos_bounds(a: int, b: int)
    requires
        b > 0,
    ensures
        a >= 0 ==> 0 <= tdiv_pos(a, b) && b * tdiv_pos(a, b) <= a,
        a < 0 ==> tdiv_pos(a, b) <= 0 && a <= b * tdiv_pos(a, b),
{
    if a >= 0 {
        lemma_div_pos_is_pos(a, b);
        lemma_fundamental_div_mod(a, b);
        lemma_mod_bound(a, b);
    } else {
        lemma_div_pos_is_pos(-a, b);
        lemma_fundamental_div_mod(-a, b);
        lemma_mod_bound(-a, b);
        assert(b * tdiv_pos(a, b) == -(b * ((-a) / b))) by (nonlinear_arith)
            requires b > 0 && a < 0,
        {}
    }
}

/// Every activation point lies between `start` and `end` (in whichever order
/// those two stand), so each one fits in the timestamp type whenever `start`,
/// `end` and their difference do.
pub proof fn lemma_partition_point_in_span(start: int, end: int, count: int, i: int)
    requires
        count > 0,
        0 <= i < count,
    ensures
        end >= start ==> start <= partition_spec(start, end, count)[i] <= end,
        end < start ==> end <= partition_spec(start, end, count)[i] <= start,
{
    let a = end - start;
    let s = step_of(start, end, count);
    lemma_tdiv_pos_bounds(a, count);
    if a >= 0 {
        assert(0 <= (i + 1) * s <= count * s) by (nonlinear_arith)
            requires 0 <= s && 0 < i + 1 <= count,
        {}
    } else {
        assert(count * s <= (i + 1) * s <= 0) by (nonlinear_arith)
            requires s <= 0 && 0 < i + 1 <= count,
        {}
    }
}

/// Splits the span from `start` to `end` into `chunks` evenly spaced
/// activation timestamps, the first strictly after `start` whenever the step
/// is positive. With `chunks == 0` the result is empty. No validation is
/// performed: with `end < start` the step is negative and the sequence
/// decreases.
pub fn timestamp_splitter(start: i64, end: i64, chunks: i64) -> (r: Vec<i64>)
    requires
        chunks >= 0,
        chunks > 0 ==> i64::MIN <= end - start <= i64::MAX,
    ensures
        r@.len() == chunks,
        forall|i: int| 0 <= i < chunks
            ==> r@[i] == partition_spec(start as int, end as int, chunks as int)[i],
        r@.map_values(|t: i64| t as int) == partition_spec(start as int, end as int, chunks as int),
{
    let mut r: Vec<i64> = Vec::new();
    if chunks == 0 {
        return r;
    }
    proof {
        lemma_tdiv_pos_bounds(end - start, chunks as int);
    }
    let step: i64 = (end - start) / chunks;
    assert(step == step_of(start as int, end as int, chunks as int));
    let ghost gstep: int = step as int;
    let mut x: i64 = 0;
    let mut acc: i64 = start;
    while x < chunks
        invariant
            0 <= x <= chunks,
            i64::MIN <= end - start <= i64::MAX,
            gstep == step_of(start as int, end as int, chunks as int),
            step == gstep,
            acc == start + x * gstep,
            end >= start ==> start <= acc <= end,
            end < start ==> end <= acc <= start,
            r@.len() == x,
            forall|i: int| 0 <= i < x
                ==> r@[i] == partition_spec(start as int, end as int, chunks as int)[i],
        decreases chunks - x,
    {
        proof {
            lemma_partition_point_in_span(start as int, end as int, chunks as int, x as int);
            assert(start + (x + 1) * gstep == acc + gstep) by (nonlinear_arith)
                requires acc == start + x * gstep,
            {}
        }
        acc = acc + step;
        r.push(acc);
        x = x + 1;
    }
    proof {
        assert(r@.map_values(|t: i64| t as int) =~= partition_spec(
            start as int,
            end as int,
            chunks as int,
        ));
    }
    r
}

/// The partitioner emits exactly as many timestamps as it was asked for.
pub proof fn lemma_partition_count(start: int, end: int, count: int)
    requires
        count >= 0,
    ensures
        partition_spec(start, end, count).len() == count,
{
}

/// A sequence whose entries never decrease from left to right.
pub open spec fn non_decreasing(s: Seq<int>) -> bool {
    forall|i: int, j: int| 0 <= i <= j < s.len() ==> s[i] <= s[j]
}

/// For a forward interval the activation points never decrease.
pub proof fn lemma_partition_monotonic(start: int, end: int, count: int)
    requires
        end > start,
        count >= 1,
    ensures
        non_decreasing(partition_spec(start, end, count)),
{
    let s = step_of(start, end, count);
    lemma_tdiv_pos_bounds(end - start, count);
    assert forall|i: int, j: int| 0 <= i <= j < count
        implies partition_spec(start, end, count)[i] <= partition_spec(start, end, count)[j] by {
        assert((i + 1) * s <= (j + 1) * s) by (nonlinear_arith)
            requires 0 <= s && i + 1 <= j + 1,
        {}
    }
}

/// The partition is a pure function of its inputs: two results computed from
/// identical inputs are the same sequence.
pub proof fn lemma_partition_deterministic(
    start: int,
    end: int,
    count: int,
    r1: Seq<int>,
    r2: Seq<int>,
)
    requires
        r1 == partition_spec(start, end, count),
        r2 == partition_spec(start, end, count),
    ensures
        r1 == r2,
{
}

} // verus!
