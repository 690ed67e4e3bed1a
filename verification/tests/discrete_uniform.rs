use jolie::distributions::traits::sample_fill as fill_slots;
use jolie::distributions::{DiscreteUniform, DiscreteUniformParams};
use jolie::error::DistributionError;
use jolie::unchecked::Unchecked;
use rand::rngs::ChaCha8Rng;
use rand::SeedableRng;

fn test_rng() -> ChaCha8Rng {
    ChaCha8Rng::seed_from_u64(42)
}

// --- Construction ---

#[test]
fn discrete_uniform_new_valid() {
    assert!(DiscreteUniform::<f64>::new(0, 10).is_ok());
    assert!(DiscreteUniform::<f64>::new(-100, 100).is_ok());
    assert!(DiscreteUniform::<f64>::new(5, 5).is_ok());
}

#[test]
fn discrete_uniform_new_rejects_flipped() {
    assert!(DiscreteUniform::<f64>::new(10, 5).is_err());
}

#[test]
fn discrete_uniform_new_unchecked_skips_validation() {
    let d = DiscreteUniform::<f64>::new_unchecked(Unchecked, 10, 5);
    assert_eq!(d.a(), 10);
    assert_eq!(d.b(), 5);
}

#[test]
fn discrete_uniform_accessors() {
    let d = DiscreteUniform::<f64>::new(2, 7).unwrap();
    assert_eq!(d.a(), 2);
    assert_eq!(d.b(), 7);
}

#[test]
fn discrete_uniform_from_params_round_trip() {
    let d = DiscreteUniform::<f64>::new(1, 10).unwrap();
    let d2 = DiscreteUniform::<f64>::from_params(d.params()).unwrap();
    assert_eq!(d.a(), d2.a());
    assert_eq!(d.b(), d2.b());
}

#[test]
fn new_rejects_overflowing_range() {
    assert!(DiscreteUniform::<f64>::new(i64::MIN, i64::MAX).is_err());
    assert!(DiscreteUniform::<f64>::new(0, i64::MAX).is_err());
    assert!(DiscreteUniform::<f64>::new(i64::MIN, 0).is_err());
    // A wide-but-representable range is accepted and does not panic.
    let d = DiscreteUniform::<f64>::new(-1_000_000_000, 1_000_000_000).unwrap();
    assert_eq!(d.support(), (-1_000_000_000, 1_000_000_000));
    // The integer parts of the cdf and the moments do not overflow.
    assert_eq!(d.count_at_most(0), 1_000_000_001);
    assert_eq!(d.support_size(), 2_000_000_001);
}

// --- Sampling: range, single value, coverage, fill ---

#[test]
fn discrete_uniform_samples_in_range() {
    let mut rng = test_rng();
    let d = DiscreteUniform::<f64>::new(0, 100).unwrap();
    for _ in 0..10_000 {
        let v = d.sample(&mut rng);
        assert!((0..=100).contains(&v), "sample {v} out of range [0, 100]");
    }
}

#[test]
fn samples_single_value() {
    let mut rng = test_rng();
    let d = DiscreteUniform::<f64>::new(7, 7).unwrap();
    for _ in 0..100 {
        assert_eq!(d.sample(&mut rng), 7);
    }
}

#[test]
fn samples_cover_full_range() {
    let mut rng = test_rng();
    let d = DiscreteUniform::<f64>::new(0, 4).unwrap();
    let mut seen = [false; 5];
    for _ in 0..10_000 {
        let v = d.sample(&mut rng) as usize;
        seen[v] = true;
    }
    assert!(
        seen.iter().all(|&s| s),
        "not all values in [0,4] were sampled"
    );
}

#[test]
fn discrete_uniform_sample_fill() {
    let mut rng = test_rng();
    let d = DiscreteUniform::<f64>::new(0, 10).unwrap();
    let mut buf = [0i64; 100];
    fill_slots(&mut buf, || d.sample(&mut rng));
    for &v in &buf {
        assert!((0..=10).contains(&v));
    }
}

// --- Own cases ---

#[test]
fn new_error_messages() {
    assert_eq!(
        DiscreteUniform::<f64>::new(3, 2).unwrap_err(),
        DistributionError::InvalidParameter("a must be <= b")
    );
    assert_eq!(
        DiscreteUniform::<f64>::new(-1, i64::MAX).unwrap_err(),
        DistributionError::InvalidParameter("range too large")
    );
    // The widest accepted range has i64::MAX values.
    let d = DiscreteUniform::<f64>::new(0, i64::MAX - 1).unwrap();
    assert_eq!(d.support(), (0, i64::MAX - 1));
}

#[test]
fn from_params_validates() {
    let p = DiscreteUniformParams { a: 9, b: 0 };
    assert_eq!(
        DiscreteUniform::<f64>::from_params(p).unwrap_err(),
        DistributionError::InvalidParameter("a must be <= b")
    );
    let d = DiscreteUniform::<f64>::from_params(DiscreteUniformParams { a: -3, b: 4 }).unwrap();
    assert_eq!(d.params(), DiscreteUniformParams { a: -3, b: 4 });
}

#[test]
fn value_at_offset_counts_from_a() {
    let d = DiscreteUniform::<f64>::new(-5, 4).unwrap();
    assert_eq!(d.value_at_offset(0), -5);
    assert_eq!(d.value_at_offset(7), 2);
    assert_eq!(d.value_at_offset(9), 4);
}

#[test]
fn count_at_most_steps_by_mass() {
    let d = DiscreteUniform::<f64>::new(-2, 3).unwrap();
    for x in -6..=8i64 {
        let step = d.count_at_most(x) - d.count_at_most(x - 1);
        assert_eq!(step, if d.in_support(x) { 1 } else { 0 }, "x = {x}");
    }
    assert_eq!(d.count_at_most(-3), 0);
    assert_eq!(d.count_at_most(3), d.support_size());
}

#[test]
fn clone_keeps_bounds() {
    let d = DiscreteUniform::<f64>::new(1, 2).unwrap();
    let c = d.clone();
    assert_eq!((c.a(), c.b()), (1, 2));
}

#[test]
fn in_support_bounds() {
    let d = DiscreteUniform::<f64>::new(-2, 3).unwrap();
    assert!(!d.in_support(-3));
    assert!(d.in_support(-2));
    assert!(d.in_support(0));
    assert!(d.in_support(3));
    assert!(!d.in_support(4));
}

#[test]
fn support_size_counts_values() {
    assert_eq!(DiscreteUniform::<f64>::new(1, 6).unwrap().support_size(), 6);
    assert_eq!(DiscreteUniform::<f64>::new(5, 5).unwrap().support_size(), 1);
    assert_eq!(
        DiscreteUniform::<f64>::new(0, i64::MAX - 1).unwrap().support_size(),
        i64::MAX
    );
}

#[test]
fn count_at_most_is_cdf_numerator() {
    let d = DiscreteUniform::<f64>::new(1, 6).unwrap();
    assert_eq!(d.count_at_most(i64::MIN), 0);
    assert_eq!(d.count_at_most(0), 0);
    assert_eq!(d.count_at_most(1), 1);
    assert_eq!(d.count_at_most(3), 3);
    assert_eq!(d.count_at_most(6), 6);
    assert_eq!(d.count_at_most(i64::MAX), 6);
}

#[test]
fn clamp_to_support_clamps() {
    let d = DiscreteUniform::<f64>::new(10, 20).unwrap();
    assert_eq!(d.clamp_to_support(i64::MIN), 10);
    assert_eq!(d.clamp_to_support(9), 10);
    assert_eq!(d.clamp_to_support(15), 15);
    assert_eq!(d.clamp_to_support(21), 20);
    assert_eq!(d.clamp_to_support(i64::MAX), 20);
}

#[test]
fn unchecked_flipped_bounds_give_nonpositive_size() {
    let d = DiscreteUniform::<f64>::new_unchecked(Unchecked, 10, 5);
    assert_eq!(d.support_size(), -4);
    assert_eq!(d.count_at_most(7), 0);
    assert_eq!(d.count_at_most(12), -4);
    assert!(!d.in_support(7));
}

// --- Sampling: binomial CI and CLT moments ---

/// Each support value's count lies within `z` binomial standard deviations
/// of its expectation under the pmf `1 / n`.
fn assert_sampling_binomial_ci(
    d: &DiscreteUniform<f64>,
    rng: &mut ChaCha8Rng,
    n_samples: usize,
    support: (i64, i64),
    z: f64,
) {
    let (a, b) = support;
    let range = (b - a + 1) as usize;
    let mut counts = vec![0usize; range];
    for _ in 0..n_samples {
        let x = d.sample(rng);
        if x >= a && x <= b {
            counts[(x - a) as usize] += 1;
        }
    }
    let n = n_samples as f64;
    let p = 1.0 / d.support_size() as f64;
    for (i, &count) in counts.iter().enumerate() {
        let expected = n * p;
        let std_dev = (n * p * (1.0 - p)).sqrt();
        let lower = (expected - z * std_dev).max(0.0);
        let upper = expected + z * std_dev;
        assert!(
            (count as f64) >= lower && (count as f64) <= upper,
            "value {}: count={count}, expected={expected:.0}, bounds=[{lower:.0}, {upper:.0}]",
            a + i as i64
        );
    }
}

#[test]
fn discrete_uniform_sampling_binomial_ci() {
    let mut rng = test_rng();
    let d = DiscreteUniform::<f64>::new(0, 9).unwrap();
    assert_sampling_binomial_ci(&d, &mut rng, 100_000, (0, 9), 5.0);
}

#[test]
fn discrete_uniform_sample_moments_clt() {
    let mut rng = test_rng();
    let d = DiscreteUniform::<f64>::new(0, 100).unwrap();
    let n = 100_000;
    let samples: Vec<i64> = (0..n).map(|_| d.sample(&mut rng)).collect();

    // Mean (a + b) / 2 and variance (m² - 1) / 12 of the uniform on m values.
    let m = d.support_size() as f64;
    let expected_mean = (d.a() as f64 + d.b() as f64) / 2.0;
    let expected_var = (m * m - 1.0) / 12.0;

    let sample_mean = samples.iter().sum::<i64>() as f64 / n as f64;
    let sample_var = samples
        .iter()
        .map(|&x| (x as f64 - sample_mean).powi(2))
        .sum::<f64>()
        / (n - 1) as f64;

    let mean_tol = 5.0 * (expected_var / n as f64).sqrt();
    // Discrete uniform excess kurtosis = -6(n^2+1) / (5(n^2-1))
    let nn = 101.0_f64;
    let kurt = -6.0 * (nn * nn + 1.0) / (5.0 * (nn * nn - 1.0));
    let var_tol = 5.0 * expected_var * ((kurt + 2.0) / n as f64).sqrt();

    assert!(
        (sample_mean - expected_mean).abs() < mean_tol,
        "mean: got {sample_mean}, expected {expected_mean}, tol {mean_tol}"
    );
    assert!(
        (sample_var - expected_var).abs() < var_tol,
        "variance: got {sample_var}, expected {expected_var}, tol {var_tol}"
    );
}
