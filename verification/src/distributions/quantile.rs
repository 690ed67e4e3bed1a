//! Integer searches behind the quantile functions of the count distributions.
//!
//! The quantile of a count distribution at `q` is the least `k` with
//! `cdf(k) >= q`. The comparison itself is made by the caller (a predicate
//! `pred`); these functions do the integer work: widen an upper bound by
//! doubling until the predicate holds there, then bisect.
use vstd::prelude::*;

verus! {

/// `x` doubled, saturating at `u64::MAX`.
pub open spec fn saturating_double(x: u64) -> u64 {
    if 2 * x > u64::MAX {
        u64::MAX
    } else {
        (2 * x) as u64
    }
}

/// The `j`-th point of the doubling sequence that starts at `hi`.
pub open spec fn doubling_point(hi: u64, j: nat) -> u64
    decreases j,
{
    if j == 0 {
        hi
    } else {
        saturating_double(doubling_point(hi, (j - 1) as nat))
    }
}

/// The predicate returned `b` on `k`.
pub open spec fn answered<P: Fn(u64) -> bool>(pred: P, k: u64, b: bool) -> bool {
    call_ensures(pred, (k,), b)
}

/// Every answer of the predicate is a function of `k` alone, and once it is
/// true it stays true for all larger `k`.
pub open spec fn monotone<P: Fn(u64) -> bool>(pred: P) -> bool {
    &&& forall|k: u64, b1: bool, b2: bool|
        #![trigger answered(pred, k, b1), answered(pred, k, b2)]
        answered(pred, k, b1) && answered(pred, k, b2) ==> b1 == b2
    &&& forall|a: u64, b: u64, v: bool|
        #![trigger answered(pred, a, true), answered(pred, b, v)]
        a <= b && answered(pred, a, true) && answered(pred, b, v) ==> v
}

proof fn lemma_doubling_step(hi: u64, j: nat)
    ensures
        doubling_point(hi, j + 1) == saturating_double(doubling_point(hi, j)),
{
}

/// `h` is the first point of the doubling sequence from `hi` at which `pred`
/// answered true (or `u64::MAX`), and `pred` answered false at every earlier
/// point.
pub open spec fn widened_to<P: Fn(u64) -> bool>(pred: P, hi: u64, h: u64) -> bool {
    exists|j: nat|
        {
            &&& h == #[trigger] doubling_point(hi, j)
            &&& h == u64::MAX || answered(pred, h, true)
            &&& forall|i: nat| i < j ==> answered(pred, doubling_point(hi, i), false)
        }
}

/// `r` is a boundary of `pred` in `[lo, hi]`: `r == hi` or `pred(r)` answered
/// true, and `r == lo` or `pred(r - 1)` answered false.
pub open spec fn boundary<P: Fn(u64) -> bool>(pred: P, lo: u64, hi: u64, r: u64) -> bool {
    &&& lo <= r <= hi
    &&& r == hi || answered(pred, r, true)
    &&& r == lo || answered(pred, (r - 1) as u64, false)
}

/// `r` is the least `k` in `[lo, r]` at which `pred` answers true: it answers
/// true on no `k` in `[lo, r)`.
pub open spec fn least_from<P: Fn(u64) -> bool>(pred: P, lo: u64, r: u64) -> bool {
    forall|k: u64| lo <= k < r ==> !answered(pred, k, true)
}

/// Widens the upper bound `hi` by doubling (saturating at `u64::MAX`) until
/// `pred` holds there. Stops at `u64::MAX` without asking the predicate there
/// when the doubling saturates.
///
/// The result is the first point of the doubling sequence `hi, 2hi, 4hi, ...`
/// at which `pred` answered true, or `u64::MAX`; the predicate answered false
/// at every earlier point.
pub fn expand_upper_bound<P: Fn(u64) -> bool>(hi: u64, pred: P) -> (r: u64)
    requires
        hi > 0,
        forall|k: u64| call_requires(pred, (k,)),
    ensures
        r >= hi,
        widened_to(pred, hi, r),
{
    let mut cur = hi;
    let ghost mut j: nat = 0;
    loop
        invariant
            hi > 0,
            forall|k: u64| call_requires(pred, (k,)),
            cur == doubling_point(hi, j),
            cur >= hi,
            forall|i: nat| i < j ==> answered(pred, doubling_point(hi, i), false),
        ensures
            cur >= hi,
            cur == doubling_point(hi, j),
            cur == u64::MAX || answered(pred, cur, true),
            forall|i: nat| i < j ==> answered(pred, doubling_point(hi, i), false),
        decreases u64::MAX - cur,
    {
        let holds = pred(cur);
        if holds {
            break;
        }
        proof {
            lemma_doubling_step(hi, j);
        }
        let next = if cur > u64::MAX / 2 { u64::MAX } else { cur * 2 };
        proof {
            assert(answered(pred, doubling_point(hi, j), false));
            j = j + 1;
        }
        cur = next;
        if cur == u64::MAX {
            break;
        }
    }
    cur
}

/// Bisection on `[lo, hi]`: the least `k` in `[lo, hi]` at which `pred`
/// answers true, where `hi` is taken to satisfy it without asking.
///
/// Whatever the predicate does, the result `r` is a boundary: `r == hi` or
/// `pred(r)` answered true, and `r == lo` or `pred(r - 1)` answered false.
/// For a monotone predicate this makes `r` the least `k` in `[lo, hi)` at
/// which it holds, or `hi` when there is none.
pub fn lower_bound<P: Fn(u64) -> bool>(lo: u64, hi: u64, pred: P) -> (r: u64)
    requires
        lo <= hi,
        forall|k: u64| call_requires(pred, (k,)),
    ensures
        boundary(pred, lo, hi, r),
        monotone(pred) ==> least_from(pred, lo, r),
{
    let mut a = lo;
    let mut b = hi;
    while a < b
        invariant
            lo <= a <= b <= hi,
            forall|k: u64| call_requires(pred, (k,)),
            b == hi || answered(pred, b, true),
            a == lo || answered(pred, (a - 1) as u64, false),
        decreases b - a,
    {
        let mid = a + (b - a) / 2;
        if pred(mid) {
            b = mid;
        } else {
            a = mid + 1;
        }
    }
    proof {
        if monotone(pred) {
            assert forall|k: u64| lo <= k < a implies !answered(pred, k, true) by {
                if answered(pred, k, true) {
                    assert(answered(pred, (a - 1) as u64, false));
                }
            }
        }
    }
    a
}

/// The integer part of a count-distribution quantile: widens `hi` by doubling
/// until `expand(hi)` holds (see [`expand_upper_bound`]), then bisects `[0, hi]`
/// with `bisect` (see [`lower_bound`]).
///
/// When both predicates are the same monotone predicate, the result is the
/// least `k` at which it holds, unless it fails up to the saturated bound
/// `u64::MAX`, which is then the result.
pub fn count_quantile<P: Fn(u64) -> bool, Q: Fn(u64) -> bool>(
    hi: u64,
    expand: P,
    bisect: Q,
) -> (r: u64)
    requires
        hi > 0,
        forall|k: u64| call_requires(expand, (k,)),
        forall|k: u64| call_requires(bisect, (k,)),
    ensures
        exists|h: u64| widened_to(expand, hi, h) && boundary(bisect, 0, h, r),
        monotone(bisect) ==> least_from(bisect, 0, r),
{
    let h = expand_upper_bound(hi, expand);
    lower_bound(0, h, bisect)
}

/// Law: searching with one monotone predicate returns the least `k` at which
/// it holds: it holds at the result (unless the result is the saturated bound
/// `u64::MAX`) and at no smaller `k`.
pub proof fn lemma_count_quantile_is_least<P: Fn(u64) -> bool>(pred: P, hi: u64, r: u64)
    requires
        monotone(pred),
        exists|h: u64| widened_to(pred, hi, h) && boundary(pred, 0, h, r),
    ensures
        r == u64::MAX || answered(pred, r, true),
        forall|k: u64| k < r ==> !answered(pred, k, true),
{
    let h = choose|h: u64| widened_to(pred, hi, h) && boundary(pred, 0, h, r);
    if r > 0 {
        assert(answered(pred, (r - 1) as u64, false));
    }
    assert forall|k: u64| k < r implies !answered(pred, k, true) by {
        if answered(pred, k, true) {
            assert(answered(pred, (r - 1) as u64, false));
        }
    }
}

} // verus!
