# jolie

Probability distributions. This crate is the verified part: the parameter
types (with the validation of the discrete uniform bounds and of the
scale/rate spellings; the floating-point parameters are validated in
`app/`), the discrete uniform distribution's integer logic (bounds, support
size, counts, clamping, sampling an offset), the integer types used as
discrete values (`DiscreteInt`), the quantile search of the count
distributions, the `i64` view of counts, the error type and the constants
(as `f64` bit patterns). Each function carries a contract that Verus proves;
the laws of the library stand as public proof functions.

`app/` holds the floating-point side, which Verus cannot check: densities,
distribution functions, quantiles, samplers, moments and special functions of
the uniform, exponential, normal, log-normal, gamma, Weibull, Poisson,
negative binomial and discrete uniform distributions, the distribution
traits, and the serde forms of the parameter types.

Layout:

- `src/constants.rs`: mathematical constants as IEEE 754 bit patterns.
- `src/error.rs`: `DistributionError` and its text.
- `src/unchecked.rs`: the marker for unvalidated constructors.
- `src/distributions/params.rs`: parameter types; the two-spelling ones map
  to and from their named fields.
- `src/distributions/discrete_uniform.rs`: `DiscreteUniform`.
- `src/distributions/traits.rs`: `DiscreteInt` and `sample_fill`.
- `src/distributions/quantile.rs`: widen-then-bisect search for the least
  count at which a monotone predicate holds.
- `src/distributions/any.rs`: the "any distribution" parameter enums and the
  `i64` view of counts.
