//! Parameter types of the distributions. These are what a configuration file
//! names; the distributions validate them when they are built.
//!
//! Parameter sets with two spellings (a scale or a rate, say) are written out
//! as a set of optional named fields; `to_fields` and `from_fields` map
//! between the two, and the presence of a field decides the spelling.
use vstd::prelude::*;

verus! {

/// Parameters of a continuous uniform distribution on `[a, b]`.
#[derive(Debug, Clone, Copy, PartialEq)]
pub struct UniformParams<F> {
    pub a: F,
    pub b: F,
}

/// Parameters of a normal distribution.
#[derive(Debug, Clone, Copy, PartialEq)]
pub struct NormalParams<F> {
    pub mean: F,
    pub std_dev: F,
}

/// Parameters of a log-normal distribution: location `mu` and scale `sigma`
/// of the underlying normal.
#[derive(Debug, Clone, Copy, PartialEq)]
pub struct LogNormalParams<F> {
    pub mu: F,
    pub sigma: F,
}

/// Parameters of a Weibull distribution.
#[derive(Debug, Clone, Copy, PartialEq)]
pub struct WeibullParams<F> {
    pub shape: F,
    pub scale: F,
}

/// Parameters of a Poisson distribution: the rate `lambda`.
#[derive(Debug, Clone, Copy, PartialEq)]
pub struct PoissonParams<F> {
    pub lambda: F,
}

/// Either a scale (θ) or a rate (λ = 1/θ) parameterization of an exponential
/// distribution.
#[derive(Debug, Clone, Copy, PartialEq)]
pub enum ExponentialParams<F> {
    Scale { scale: F },
    Rate { rate: F },
}

/// A gamma distribution by shape and scale, or by shape and rate.
#[derive(Debug, Clone, Copy, PartialEq)]
pub enum GammaParams<F> {
    ShapeScale { shape: F, scale: F },
    ShapeRate { shape: F, rate: F },
}

/// A negative binomial distribution by successes `r` and success probability
/// `p`, or by mean and dispersion `k`.
#[derive(Debug, Clone, Copy, PartialEq)]
pub enum NegativeBinomialParams<F> {
    RP { r: F, p: F },
    MeanDispersion { mean: F, k: F },
}

// ------------------------------------------------------------ exponential

/// The named fields `(scale, rate)` of an exponential parameter set.
pub open spec fn exponential_fields<F>(p: ExponentialParams<F>) -> (Option<F>, Option<F>) {
    match p {
        ExponentialParams::Scale { scale } => (Some(scale), None),
        ExponentialParams::Rate { rate } => (None, Some(rate)),
    }
}

/// The exponential parameter set that the fields `(scale, rate)` name:
/// exactly one of them must be present.
pub open spec fn exponential_from_fields<F>(scale: Option<F>, rate: Option<F>) -> Result<
    ExponentialParams<F>,
    &'static str,
> {
    match (scale, rate) {
        (Some(s), None) => Ok(ExponentialParams::Scale { scale: s }),
        (None, Some(r)) => Ok(ExponentialParams::Rate { rate: r }),
        (Some(_), Some(_)) => Err("specify either `scale` or `rate`, not both"),
        (None, None) => Err("must specify either `scale` or `rate`"),
    }
}

impl<F: Copy> ExponentialParams<F> {
    /// The named fields `(scale, rate)`; exactly one is present.
    pub fn to_fields(&self) -> (f: (Option<F>, Option<F>))
        ensures
            f == exponential_fields(*self),
    {
        match self {
            ExponentialParams::Scale { scale } => (Some(*scale), None),
            ExponentialParams::Rate { rate } => (None, Some(*rate)),
        }
    }

    /// The parameter set named by the fields `(scale, rate)`; an error unless
    /// exactly one of them is present.
    pub fn from_fields(scale: Option<F>, rate: Option<F>) -> (r: Result<Self, &'static str>)
        ensures
            r == exponential_from_fields(scale, rate),
    {
        match (scale, rate) {
            (Some(s), None) => Ok(ExponentialParams::Scale { scale: s }),
            (None, Some(r)) => Ok(ExponentialParams::Rate { rate: r }),
            (Some(_), Some(_)) => Err("specify either `scale` or `rate`, not both"),
            (None, None) => Err("must specify either `scale` or `rate`"),
        }
    }
}

/// Law: the fields of a parameter set name that parameter set, and fields that
/// name a parameter set are its fields.
pub proof fn lemma_exponential_fields_round_trip<F>(
    p: ExponentialParams<F>,
    scale: Option<F>,
    rate: Option<F>,
)
    ensures
        exponential_from_fields(exponential_fields(p).0, exponential_fields(p).1) == Ok::<
            ExponentialParams<F>,
            &'static str,
        >(p),
        exponential_from_fields(scale, rate) == Ok::<ExponentialParams<F>, &'static str>(p)
            ==> exponential_fields(p) == (scale, rate),
{
}

// ------------------------------------------------------------------ gamma

/// The named fields `(shape, scale, rate)` of a gamma parameter set.
pub open spec fn gamma_fields<F>(p: GammaParams<F>) -> (F, Option<F>, Option<F>) {
    match p {
        GammaParams::ShapeScale { shape, scale } => (shape, Some(scale), None),
        GammaParams::ShapeRate { shape, rate } => (shape, None, Some(rate)),
    }
}

/// The gamma parameter set that the fields name: the shape, and exactly one
/// of scale and rate.
pub open spec fn gamma_from_fields<F>(shape: F, scale: Option<F>, rate: Option<F>) -> Result<
    GammaParams<F>,
    &'static str,
> {
    match (scale, rate) {
        (Some(s), None) => Ok(GammaParams::ShapeScale { shape, scale: s }),
        (None, Some(r)) => Ok(GammaParams::ShapeRate { shape, rate: r }),
        (Some(_), Some(_)) => Err("specify either `scale` or `rate`, not both"),
        (None, None) => Err("must specify either `scale` or `rate`"),
    }
}

impl<F: Copy> GammaParams<F> {
    /// The named fields `(shape, scale, rate)`; exactly one of scale and rate
    /// is present.
    pub fn to_fields(&self) -> (f: (F, Option<F>, Option<F>))
        ensures
            f == gamma_fields(*self),
    {
        match self {
            GammaParams::ShapeScale { shape, scale } => (*shape, Some(*scale), None),
            GammaParams::ShapeRate { shape, rate } => (*shape, None, Some(*rate)),
        }
    }

    /// The parameter set named by the fields; an error unless exactly one of
    /// scale and rate is present.
    pub fn from_fields(shape: F, scale: Option<F>, rate: Option<F>) -> (r: Result<
        Self,
        &'static str,
    >)
        ensures
            r == gamma_from_fields(shape, scale, rate),
    {
        match (scale, rate) {
            (Some(s), None) => Ok(GammaParams::ShapeScale { shape, scale: s }),
            (None, Some(r)) => Ok(GammaParams::ShapeRate { shape, rate: r }),
            (Some(_), Some(_)) => Err("specify either `scale` or `rate`, not both"),
            (None, None) => Err("must specify either `scale` or `rate`"),
        }
    }
}

/// Law: the fields of a gamma parameter set name it, and fields that name a
/// parameter set are its fields.
pub proof fn lemma_gamma_fields_round_trip<F>(
    p: GammaParams<F>,
    shape: F,
    scale: Option<F>,
    rate: Option<F>,
)
    ensures
        gamma_from_fields(gamma_fields(p).0, gamma_fields(p).1, gamma_fields(p).2) == Ok::<
            GammaParams<F>,
            &'static str,
        >(p),
        gamma_from_fields(shape, scale, rate) == Ok::<GammaParams<F>, &'static str>(p)
            ==> gamma_fields(p) == (shape, scale, rate),
{
}

// ------------------------------------------------------ negative binomial

/// The named fields `(r, p, mean, k)` of a negative binomial parameter set.
pub open spec fn negative_binomial_fields<F>(p: NegativeBinomialParams<F>) -> (
    Option<F>,
    Option<F>,
    Option<F>,
    Option<F>,
) {
    match p {
        NegativeBinomialParams::RP { r, p } => (Some(r), Some(p), None, None),
        NegativeBinomialParams::MeanDispersion { mean, k } => (None, None, Some(mean), Some(k)),
    }
}

/// The negative binomial parameter set that the fields name: either `r` and
/// `p` alone, or `mean` and `k` alone.
pub open spec fn negative_binomial_from_fields<F>(
    r: Option<F>,
    p: Option<F>,
    mean: Option<F>,
    k: Option<F>,
) -> Result<NegativeBinomialParams<F>, &'static str> {
    match (r, p, mean, k) {
        (Some(r), Some(p), None, None) => Ok(NegativeBinomialParams::RP { r, p }),
        (None, None, Some(mean), Some(k)) => Ok(NegativeBinomialParams::MeanDispersion { mean, k }),
        _ => Err("specify either {r, p} or {mean, k}"),
    }
}

impl<F: Copy> NegativeBinomialParams<F> {
    /// The named fields `(r, p, mean, k)`: either the first two or the last
    /// two are present.
    pub fn to_fields(&self) -> (f: (Option<F>, Option<F>, Option<F>, Option<F>))
        ensures
            f == negative_binomial_fields(*self),
    {
        match self {
            NegativeBinomialParams::RP { r, p } => (Some(*r), Some(*p), None, None),
            NegativeBinomialParams::MeanDispersion { mean, k } => (
                None,
                None,
                Some(*mean),
                Some(*k),
            ),
        }
    }

    /// The parameter set named by the fields; an error unless exactly `r` and
    /// `p`, or exactly `mean` and `k`, are present.
    pub fn from_fields(r: Option<F>, p: Option<F>, mean: Option<F>, k: Option<F>) -> (res: Result<
        Self,
        &'static str,
    >)
        ensures
            res == negative_binomial_from_fields(r, p, mean, k),
    {
        match (r, p, mean, k) {
            (Some(r), Some(p), None, None) => Ok(NegativeBinomialParams::RP { r, p }),
            (None, None, Some(mean), Some(k)) => Ok(
                NegativeBinomialParams::MeanDispersion { mean, k },
            ),
            _ => Err("specify either {r, p} or {mean, k}"),
        }
    }
}

/// Law: the fields of a negative binomial parameter set name it, and fields
/// that name a parameter set are its fields.
pub proof fn lemma_negative_binomial_fields_round_trip<F>(
    params: NegativeBinomialParams<F>,
    r: Option<F>,
    p: Option<F>,
    mean: Option<F>,
    k: Option<F>,
)
    ensures
        ({
            let f = negative_binomial_fields(params);
            negative_binomial_from_fields(f.0, f.1, f.2, f.3) == Ok::<
                NegativeBinomialParams<F>,
                &'static str,
            >(params)
        }),
        negative_binomial_from_fields(r, p, mean, k) == Ok::<
            NegativeBinomialParams<F>,
            &'static str,
        >(params) ==> negative_binomial_fields(params) == (r, p, mean, k),
{
}

} // verus!
