use vstd::prelude::*;

verus! {

/// Number of integers in `[lo, hi]` as a `usize`: 0 when `hi < lo`, and
/// `usize::MAX` when the count does not fit in a `usize`.
pub open spec fn range_size_spec(lo: int, hi: int) -> usize {
    if hi < lo {
        0usize
    } else if hi - lo + 1 > usize::MAX {
        usize::MAX
    } else {
        (hi - lo + 1) as usize
    }
}

/// A count as a `usize`, saturating at `usize::MAX`.
fn saturate_to_usize(n: u64) -> (r: usize)
    ensures
        n > usize::MAX ==> r == usize::MAX,
        n <= usize::MAX ==> r == n,
{
    if n > usize::MAX as u64 {
        usize::MAX
    } else {
        n as usize
    }
}

/// A value as a `usize` index: negative values become 0.
pub open spec fn saturating_index(v: int) -> usize {
    if v < 0 {
        0usize
    } else {
        v as usize
    }
}

/// Integer types used as the values of discrete distributions
/// (implemented for `i64` and `u64`).
pub trait DiscreteInt: Sized + Copy {
    /// The mathematical value of this integer.
    spec fn as_int(self) -> int;

    /// Calls `f` on every integer of the inclusive range `[lo, hi]`, in
    /// increasing order; nothing is called when `hi < lo`.
    ///
    /// Do not call it with unbounded supports (e.g. `0..=u64::MAX`).
    fn for_each_in_range<G: FnMut(Self)>(lo: Self, hi: Self, f: G)
        requires
            forall|x: Self|
                lo.as_int() <= x.as_int() <= hi.as_int() ==> #[trigger] call_requires(f, (x,)),
        ensures
            forall|x: Self|
                lo.as_int() <= x.as_int() <= hi.as_int() ==> #[trigger] call_ensures(f, (x,), ()),
    ;

    /// Converts to `usize` for indexing; negative values become 0.
    fn to_usize_saturating(self) -> (n: usize)
        ensures
            n == saturating_index(self.as_int()),
    ;

    /// Number of integers in `[lo, hi]`, as `usize`; `usize::MAX` on overflow.
    fn range_size(lo: Self, hi: Self) -> (n: usize)
        ensures
            n == range_size_spec(lo.as_int(), hi.as_int()),
    ;
}

impl DiscreteInt for i64 {
    open spec fn as_int(self) -> int {
        self as int
    }

    fn for_each_in_range<G: FnMut(Self)>(lo: Self, hi: Self, f: G) {
        let ghost f0 = f;
        let mut f = f;
        if hi < lo {
            return;
        }
        let mut x = lo;
        loop
            invariant
                lo <= x <= hi,
                f == f0,
                forall|y: Self| lo <= y <= hi ==> #[trigger] call_requires(f0, (y,)),
                forall|y: Self| lo <= y < x ==> #[trigger] call_ensures(f0, (y,), ()),
            ensures
                forall|y: Self| lo <= y <= hi ==> #[trigger] call_ensures(f0, (y,), ()),
            decreases hi - x,
        {
            f(x);
            if x == hi {
                break;
            }
            x = x + 1;
        }
    }

    fn to_usize_saturating(self) -> (n: usize) {
        if self < 0 {
            0
        } else {
            self as usize
        }
    }

    fn range_size(lo: Self, hi: Self) -> (n: usize) {
        if hi < lo {
            0
        } else {
            // u64 arithmetic: hi - lo + 1 may exceed i64::MAX
            let diff = (hi as u64).wrapping_sub(lo as u64);
            assert(diff == hi - lo) by (bit_vector)
                requires
                    lo <= hi,
                    diff == (hi as u64).wrapping_sub(lo as u64),
            ;
            match diff.checked_add(1) {
                Some(n) => saturate_to_usize(n),
                None => usize::MAX,
            }
        }
    }
}

impl DiscreteInt for u64 {
    open spec fn as_int(self) -> int {
        self as int
    }

    fn for_each_in_range<G: FnMut(Self)>(lo: Self, hi: Self, f: G) {
        let ghost f0 = f;
        let mut f = f;
        if hi < lo {
            return;
        }
        let mut x = lo;
        loop
            invariant
                lo <= x <= hi,
                f == f0,
                forall|y: Self| lo <= y <= hi ==> #[trigger] call_requires(f0, (y,)),
                forall|y: Self| lo <= y < x ==> #[trigger] call_ensures(f0, (y,), ()),
            ensures
                forall|y: Self| lo <= y <= hi ==> #[trigger] call_ensures(f0, (y,), ()),
            decreases hi - x,
        {
            f(x);
            if x == hi {
                break;
            }
            x = x + 1;
        }
    }

    fn to_usize_saturating(self) -> (n: usize) {
        self as usize
    }

    fn range_size(lo: Self, hi: Self) -> (n: usize) {
        if hi < lo {
            0
        } else {
            match (hi - lo).checked_add(1) {
                Some(n) => saturate_to_usize(n),
                None => usize::MAX,
            }
        }
    }
}

/// Fills every slot of `out`, in order, with a fresh value from `draw` (one
/// call per slot).
pub fn sample_fill<T, G: FnMut() -> T>(out: &mut [T], draw: G)
    requires
        call_requires(draw, ()),
    ensures
        final(out)@.len() == old(out)@.len(),
        forall|i: int|
            0 <= i < final(out)@.len() ==> #[trigger] call_ensures(draw, (), final(out)@[i]),
{
    let ghost draw0 = draw;
    let mut draw = draw;
    let n = out.len();
    let mut i: usize = 0;
    while i < n
        invariant
            n == out@.len(),
            n == old(out)@.len(),
            i <= n,
            draw == draw0,
            call_requires(draw0, ()),
            forall|j: int| 0 <= j < i ==> #[trigger] call_ensures(draw0, (), out@[j]),
        decreases n - i,
    {
        let v = draw();
        out[i] = v;
        i = i + 1;
    }
}

} // verus!
