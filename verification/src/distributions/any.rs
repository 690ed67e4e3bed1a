//! Type-erased "any distribution" parameter enums, split by kind, so that a
//! configuration file can select among the supported distributions.
//!
//! The discrete distributions are seen through `i64` values. Count
//! distributions (Poisson, negative binomial) are `u64`-native; a negative
//! `i64` argument is outside their support, and a count beyond `i64::MAX` is
//! shown as `i64::MAX`.
use vstd::prelude::*;

use crate::distributions::discrete_uniform::DiscreteUniformParams;
use crate::distributions::params::{
    ExponentialParams, GammaParams, LogNormalParams, NegativeBinomialParams, NormalParams,
    PoissonParams, UniformParams, WeibullParams,
};

verus! {

/// Parameters of any supported continuous distribution.
#[derive(Debug, Clone, Copy, PartialEq)]
pub enum AnyContinuousParams<F> {
    Uniform(UniformParams<F>),
    Exponential(ExponentialParams<F>),
    Normal(NormalParams<F>),
    LogNormal(LogNormalParams<F>),
    Gamma(GammaParams<F>),
    Weibull(WeibullParams<F>),
}

/// Parameters of any supported discrete distribution.
#[derive(Debug, Clone, Copy, PartialEq)]
pub enum AnyDiscreteParams<F> {
    DiscreteUniform(DiscreteUniformParams),
    Poisson(PoissonParams<F>),
    NegativeBinomial(NegativeBinomialParams<F>),
}

/// The count that an `i64` argument names: none when it is negative.
pub open spec fn count_view(x: i64) -> Option<u64> {
    if x < 0 {
        None
    } else {
        Some(x as u64)
    }
}

/// A count as an `i64`, clamped at `i64::MAX`.
pub open spec fn count_as_i64(k: u64) -> i64 {
    if k > i64::MAX {
        i64::MAX
    } else {
        k as i64
    }
}

/// The count that an `i64` argument names: none when it is negative (outside
/// the support of a count distribution).
pub fn count_of(x: i64) -> (c: Option<u64>)
    ensures
        c == count_view(x),
{
    if x < 0 {
        None
    } else {
        Some(x as u64)
    }
}

/// A count as an `i64`, clamped at `i64::MAX` (the `u64::MAX` sentinel of an
/// unbounded support or of the quantile at probability 1 included).
pub fn count_to_i64(k: u64) -> (x: i64)
    ensures
        x == count_as_i64(k),
{
    if k > i64::MAX as u64 {
        i64::MAX
    } else {
        k as i64
    }
}

/// Law: the `i64` view of counts is faithful. A non-negative argument names a
/// count that is shown back as the same argument; every count that fits in an
/// `i64` is shown as itself, and a larger one as `i64::MAX`.
pub proof fn lemma_count_view_round_trip(x: i64, k: u64)
    ensures
        x >= 0 ==> count_view(x) == Some(x as u64) && count_as_i64(x as u64) == x,
        x < 0 ==> count_view(x) is None,
        k <= i64::MAX ==> count_as_i64(k) == k && count_view(count_as_i64(k)) == Some(k),
        k > i64::MAX ==> count_as_i64(k) == i64::MAX,
{
}

/// The support of a count distribution, `(lo, hi)`, as `i64` bounds: the
/// upper bound is clamped at `i64::MAX`, the lower one (0 for every count
/// distribution) is cast.
pub fn count_support_to_i64(support: (u64, u64)) -> (s: (i64, i64))
    ensures
        s.0 == support.0 as i64,
        s.1 == count_as_i64(support.1),
{
    (support.0 as i64, count_to_i64(support.1))
}

} // verus!
