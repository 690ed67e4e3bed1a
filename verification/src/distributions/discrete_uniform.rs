use core::marker::PhantomData;
use rand::{Rng, RngExt};
use vstd::prelude::*;

use crate::error::DistributionError;
use crate::unchecked::Unchecked;

verus! {

/// The bounds `[a, b]` describe a discrete uniform distribution: `a <= b`, and
/// the support size `b - a + 1` fits in an `i64`.
pub open spec fn valid_range(a: int, b: int) -> bool {
    a <= b && b - a + 1 <= i64::MAX
}

/// What `DiscreteUniform::new(a, b)` gives: an error naming the first rule
/// broken, or the distribution on `[a, b]`.
pub open spec fn new_outcome(a: int, b: int) -> Result<(int, int), DistributionError> {
    if a > b {
        Err(DistributionError::InvalidParameter("a must be <= b"))
    } else if b - a + 1 > i64::MAX {
        Err(DistributionError::InvalidParameter("range too large"))
    } else {
        Ok((a, b))
    }
}

/// The number of integers of `[a, b]` that are at most `x`.
pub open spec fn count_at_most_spec(a: int, b: int, x: int) -> int {
    if x < a {
        0
    } else if x >= b {
        b - a + 1
    } else {
        x - a + 1
    }
}

/// Discrete uniform distribution over the integers `{a, a+1, ..., b}`.
///
/// `F` is the floating-point type the densities are computed in.
#[derive(Debug, Copy, PartialEq)]
pub struct DiscreteUniform<F> {
    a: i64,
    b: i64,
    _marker: PhantomData<F>,
}

/// Parameters of a [`DiscreteUniform`]: the inclusive bounds.
#[derive(Debug, Clone, Copy, PartialEq, Eq)]
pub struct DiscreteUniformParams {
    pub a: i64,
    pub b: i64,
}

impl<F> Clone for DiscreteUniform<F> {
    fn clone(&self) -> (c: Self)
        ensures
            c@ == self@,
    {
        DiscreteUniform { a: self.a, b: self.b, _marker: PhantomData }
    }
}

impl<F> View for DiscreteUniform<F> {
    /// The bounds `(a, b)`.
    type V = (int, int);

    closed spec fn view(&self) -> (int, int) {
        (self.a as int, self.b as int)
    }
}

/// `rng.random_range(0..n)` of `rand`: a value drawn from `[0, n)`. It panics
/// on an empty range, so `n` must be positive. Which value comes out depends
/// on the generator's state and is not stated.
#[verifier::external_body]
fn random_range_below<R: Rng + ?Sized>(rng: &mut R, n: u64) -> (r: u64)
    requires
        n > 0,
    ensures
        r < n,
{
    rng.random_range(0..n)
}

/// Draws a value uniform on `[0, n)` from `rng`.
pub fn random_below<R: Rng + ?Sized>(rng: &mut R, n: u64) -> (r: u64)
    requires
        n > 0,
    ensures
        r < n,
{
    random_range_below(rng, n)
}

impl<F> DiscreteUniform<F> {
    /// The distribution's bounds are a valid range (true of every value built
    /// by `new` or `from_params`).
    pub open spec fn well_formed(&self) -> bool {
        valid_range(self@.0, self@.1)
    }

    /// The number of values in the support, `b - a + 1`.
    pub open spec fn support_len(&self) -> int {
        self@.1 - self@.0 + 1
    }

    /// `b - a + 1` can be computed in `i64` without overflow (true of every
    /// well-formed distribution, and of some built unchecked with `b < a`).
    pub open spec fn size_fits(&self) -> bool {
        i64::MIN <= self@.1 - self@.0 && self.support_len() <= i64::MAX
    }

    /// - `a`: lower bound (inclusive)
    /// - `b`: upper bound (inclusive), must be >= `a`; the support size
    ///   `b - a + 1` must fit in an `i64`.
    pub fn new(a: i64, b: i64) -> (r: Result<Self, DistributionError>)
        ensures
            match new_outcome(a as int, b as int) {
                Ok(bounds) => r matches Ok(d) && d@ == bounds,
                Err(e) => r == Err::<Self, DistributionError>(e),
            },
            r matches Ok(d) ==> d.well_formed(),
    {
        if a > b {
            return Err(DistributionError::InvalidParameter("a must be <= b"));
        }
        // The support size is computed in i128, where it cannot overflow.
        if (b as i128) - (a as i128) + 1 > i64::MAX as i128 {
            return Err(DistributionError::InvalidParameter("range too large"));
        }
        Ok(DiscreteUniform { a, b, _marker: PhantomData })
    }

    /// Builds the distribution without validating the bounds.
    pub fn new_unchecked(_u: Unchecked, a: i64, b: i64) -> (d: Self)
        ensures
            d@ == (a as int, b as int),
    {
        DiscreteUniform { a, b, _marker: PhantomData }
    }

    /// The lower bound `a`.
    pub fn a(&self) -> (a: i64)
        ensures
            a == self@.0,
    {
        self.a
    }

    /// The upper bound `b`.
    pub fn b(&self) -> (b: i64)
        ensures
            b == self@.1,
    {
        self.b
    }

    /// The support `(a, b)`.
    pub fn support(&self) -> (s: (i64, i64))
        ensures
            s.0 == self@.0,
            s.1 == self@.1,
    {
        (self.a, self.b)
    }

    /// The parameters the distribution was built from.
    pub fn params(&self) -> (p: DiscreteUniformParams)
        ensures
            p.a == self@.0,
            p.b == self@.1,
    {
        DiscreteUniformParams { a: self.a, b: self.b }
    }

    /// Builds the distribution from its parameters, validating them as `new`.
    pub fn from_params(params: DiscreteUniformParams) -> (r: Result<Self, DistributionError>)
        ensures
            match new_outcome(params.a as int, params.b as int) {
                Ok(bounds) => r matches Ok(d) && d@ == bounds,
                Err(e) => r == Err::<Self, DistributionError>(e),
            },
            r matches Ok(d) ==> d.well_formed(),
    {
        Self::new(params.a, params.b)
    }

    /// Whether `x` lies in the support `[a, b]`.
    pub fn in_support(&self, x: i64) -> (r: bool)
        ensures
            r == (self@.0 <= x <= self@.1),
    {
        x >= self.a && x <= self.b
    }

    /// The number of values in the support, `b - a + 1` (at most 0 for a
    /// distribution built unchecked with `b < a`).
    pub fn support_size(&self) -> (n: i64)
        requires
            self.size_fits(),
        ensures
            n == self.support_len(),
            self.well_formed() ==> n >= 1,
    {
        self.b - self.a + 1
    }

    /// The number of support values at most `x`: 0 below `a`, `b - a + 1`
    /// from `b` on, `x - a + 1` between (the numerator of the cdf at `x`).
    pub fn count_at_most(&self, x: i64) -> (c: i64)
        requires
            self.size_fits(),
        ensures
            c == count_at_most_spec(self@.0, self@.1, x as int),
            self.well_formed() ==> 0 <= c <= self.support_len(),
    {
        if x < self.a {
            0
        } else if x >= self.b {
            self.b - self.a + 1
        } else {
            x - self.a + 1
        }
    }

    /// `k` clamped into the support `[a, b]`.
    pub fn clamp_to_support(&self, k: i64) -> (r: i64)
        requires
            self@.0 <= self@.1,
        ensures
            k < self@.0 ==> r == self@.0,
            k > self@.1 ==> r == self@.1,
            self@.0 <= k <= self@.1 ==> r == k,
    {
        if k < self.a {
            self.a
        } else if k > self.b {
            self.b
        } else {
            k
        }
    }

    /// The support value at offset `o` from `a`: `a + o`.
    pub fn value_at_offset(&self, o: u64) -> (x: i64)
        requires
            self.well_formed(),
            o < self.support_len(),
        ensures
            x == self@.0 + o,
            self@.0 <= x <= self@.1,
    {
        self.a + (o as i64)
    }

    /// Draws one value: an offset uniform on `[0, n)`, `n = b - a + 1`, from
    /// `rng`, added to `a`.
    ///
    /// The result is `a + o` for the offset `o` that `random_below(rng, n)`
    /// drew from the generator in the state `rng` had on entry; each support
    /// value is `a + o` for exactly one offset (see
    /// [`lemma_offsets_reach_support_once`]), so a uniform offset gives a
    /// uniform value.
    pub fn sample<R: Rng + ?Sized>(&self, rng: &mut R) -> (x: i64)
        requires
            self.well_formed(),
        ensures
            self@.0 <= x <= self@.1,
            exists|r: &mut R, o: u64|
                &*r == &*old(rng) && #[trigger] call_ensures(
                    random_below::<R>,
                    (r, self.support_len() as u64),
                    o,
                ) && x == self@.0 + o,
    {
        let n = self.support_size() as u64;
        let o = random_below(rng, n);
        self.value_at_offset(o)
    }
}

/// The offsets below the support size from which `sample` yields `v`.
pub open spec fn offsets_yielding<F>(d: DiscreteUniform<F>, v: int) -> Set<int> {
    Set::new(|o: int| 0 <= o < d.support_len() && d@.0 + o == v)
}

/// Law: sampling spreads the offsets over the support one to one. Every
/// support value `v` is yielded by exactly one offset, `v - a`, and a value
/// outside the support by none; so an offset drawn uniformly from `[0, n)`
/// gives each of the `n` support values with probability `1 / n`.
pub proof fn lemma_offsets_reach_support_once<F>(d: DiscreteUniform<F>, v: int)
    requires
        d.well_formed(),
    ensures
        d@.0 <= v <= d@.1 ==> offsets_yielding(d, v) == set![v - d@.0],
        !(d@.0 <= v <= d@.1) ==> offsets_yielding(d, v) == Set::<int>::empty(),
        offsets_yielding(d, v).finite(),
        offsets_yielding(d, v).len() == (if d@.0 <= v <= d@.1 { 1nat } else { 0nat }),
{
    if d@.0 <= v <= d@.1 {
        assert(offsets_yielding(d, v) =~= set![v - d@.0]);
    } else {
        assert(offsets_yielding(d, v) =~= Set::<int>::empty());
    }
}

/// Law: the cdf numerator is cumulative. It is 0 below the support and the
/// support size from `b` on, and from `x - 1` to `x` it grows by exactly one
/// where `x` is in the support and stays put elsewhere; so it never decreases.
pub proof fn lemma_count_at_most_cumulative(a: int, b: int, x: int, y: int)
    requires
        a <= b,
    ensures
        count_at_most_spec(a, b, a - 1) == 0,
        count_at_most_spec(a, b, b) == b - a + 1,
        count_at_most_spec(a, b, x) - count_at_most_spec(a, b, x - 1) == (if a <= x <= b {
            1int
        } else {
            0int
        }),
        x <= y ==> count_at_most_spec(a, b, x) <= count_at_most_spec(a, b, y),
{
}

/// Law: rebuilding a distribution from its own parameters gives it back.
pub proof fn lemma_params_round_trip<F>(d: DiscreteUniform<F>, p: DiscreteUniformParams)
    requires
        d.well_formed(),
        p.a == d@.0,
        p.b == d@.1,
    ensures
        new_outcome(p.a as int, p.b as int) == Ok::<(int, int), DistributionError>(d@),
{
}

} // verus!
