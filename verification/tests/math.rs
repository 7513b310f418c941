use osrs_cli::math::{binomial, binomial_cdf, checked_combination, combination};
use osrs_cli::ratio::Ratio;

fn ratio(num: u128, den: u128) -> Ratio {
    Ratio::new(num, den).unwrap()
}

fn approx(r: Ratio) -> f64 {
    r.numer() as f64 / r.denom() as f64
}

#[test]
fn test_combination() {
    assert_eq!(combination(0, 0), 1);
    assert_eq!(combination(0, 1), 0);
    assert_eq!(combination(1, 0), 1);
    assert_eq!(combination(1, 1), 1);

    assert_eq!(combination(2, 0), 1);
    assert_eq!(combination(2, 1), 2);
    assert_eq!(combination(2, 2), 1);

    assert_eq!(combination(5, 0), 1);
    assert_eq!(combination(5, 1), 5);
    assert_eq!(combination(5, 2), 10);
    assert_eq!(combination(5, 3), 10);
    assert_eq!(combination(5, 4), 5);
    assert_eq!(combination(5, 5), 1);

    assert_eq!(combination(10, 5), 252);
}

#[test]
fn test_combination_is_symmetric() {
    for n in 0..30usize {
        for k in 0..=n {
            assert_eq!(combination(n, k), combination(n, n - k));
        }
    }
}

#[test]
fn test_combination_avoids_intermediate_overflow() {
    // 30! / 15! does not fit in 64 bits, the coefficient does
    assert_eq!(combination(30, 15), 155117520);
    assert_eq!(combination(62, 31), 465428353255261088);
    assert_eq!(combination(1_000_000, 1), 1_000_000);
    assert_eq!(combination(1_000_000, 999_999), 1_000_000);
}

#[test]
fn test_checked_combination_reports_overflow() {
    assert_eq!(checked_combination(10, 5), Some(252));
    assert_eq!(checked_combination(3, 7), Some(0));
    assert_eq!(checked_combination(200, 100), None);
}

#[test]
fn test_binomial() {
    assert_eq!(binomial(ratio(1, 2), 2, 1), ratio(1, 2));
    assert!((approx(binomial(ratio(1, 10), 20, 0)) - 0.121577).abs() < 1e-6);
    assert!((approx(binomial(ratio(1, 10), 20, 6)) - 0.00886704).abs() < 1e-6);
}

#[test]
fn test_binomial_exact_values() {
    // 3 choose 1, times 1/4, times (3/4)^2
    assert_eq!(binomial(ratio(1, 4), 3, 1), ratio(27, 64));
    assert_eq!(binomial(ratio(0, 1), 5, 0), ratio(1, 1));
    assert_eq!(binomial(ratio(1, 1), 5, 5), ratio(1, 1));
    assert_eq!(binomial(ratio(1, 1), 5, 4), ratio(0, 1));
}

#[test]
fn test_binomial_cdf() {
    assert_eq!(binomial_cdf(ratio(1, 2), 2, &vec![0]), ratio(1, 4));
    assert_eq!(binomial_cdf(ratio(1, 2), 2, &vec![0, 1]), ratio(3, 4));
    assert_eq!(binomial_cdf(ratio(1, 2), 2, &vec![0, 1, 2]), ratio(1, 1));
}

#[test]
fn test_binomial_cdf_of_scattered_values() {
    // exactly 0 or exactly 3 successes in 3 trials at 1/3
    assert_eq!(binomial_cdf(ratio(1, 3), 3, &vec![3, 0]), ratio(9, 27));
    assert_eq!(binomial_cdf(ratio(1, 3), 3, &vec![]), ratio(0, 1));
}

#[test]
fn test_binomial_terms_add_up_to_one() {
    for n in 0..12usize {
        let ks: Vec<usize> = (0..=n).collect();
        assert_eq!(binomial_cdf(ratio(27, 128), n, &ks), ratio(1, 1));
        assert_eq!(binomial_cdf(ratio(3, 7), n, &ks), ratio(1, 1));
    }
}

#[test]
fn test_checked_pow() {
    assert_eq!(osrs_cli::math::checked_pow_u128(0, 0), Some(1));
    assert_eq!(osrs_cli::math::checked_pow_u128(0, 5), Some(0));
    assert_eq!(osrs_cli::math::checked_pow_u128(1, usize::MAX), Some(1));
    assert_eq!(osrs_cli::math::checked_pow_u128(128, 3), Some(2097152));
    assert_eq!(osrs_cli::math::checked_pow_u128(2, 127), Some(1 << 127));
    assert_eq!(osrs_cli::math::checked_pow_u128(2, 128), None);
    assert_eq!(osrs_cli::math::checked_pow_u128(10, 38), Some(10u128.pow(38)));
    assert_eq!(osrs_cli::math::checked_pow_u128(10, 39), None);
    assert_eq!(osrs_cli::math::checked_pow_u128(u128::MAX, 1), Some(u128::MAX));
    assert_eq!(osrs_cli::math::checked_pow_u128(u128::MAX, 2), None);
}

#[test]
fn test_checked_binomial_counts_what_fits() {
    let half = Ratio::new(1, 2).unwrap();
    assert_eq!(
        osrs_cli::math::checked_binomial(half, 4, 2),
        Some(Ratio::new(3, 8).unwrap())
    );
    let rare = Ratio::new(1, 128).unwrap();
    assert_eq!(
        osrs_cli::math::checked_binomial(rare, 3, 0),
        Some(Ratio::new(2048383, 2097152).unwrap())
    );
    // 128 to the 18th is 2 to the 126th, and there is one way to miss 18 times
    assert_eq!(
        osrs_cli::math::checked_binomial(rare, 18, 0),
        Some(Ratio::new(127u128.pow(18), 1 << 126).unwrap())
    );
    // 18 ways to hit once no longer fit beside it
    assert_eq!(osrs_cli::math::checked_binomial(rare, 18, 1), None);
    assert_eq!(osrs_cli::math::checked_binomial(rare, 19, 0), None);
    // a certain event fits whatever the number of trials
    let sure = Ratio::new(1, 1).unwrap();
    assert_eq!(
        osrs_cli::math::checked_binomial(sure, 60, 60),
        Some(Ratio::new(1, 1).unwrap())
    );
    assert_eq!(osrs_cli::math::checked_binomial(sure, 100, 50), None);
}

#[test]
fn test_checked_binomial_cdf_counts_what_fits() {
    let half = Ratio::new(1, 2).unwrap();
    assert_eq!(
        osrs_cli::math::checked_binomial_cdf(half, 4, &vec![0, 2, 4]),
        Some(Ratio::new(1, 2).unwrap())
    );
    assert_eq!(
        osrs_cli::math::checked_binomial_cdf(half, 4, &Vec::new()),
        Some(Ratio::new(0, 1).unwrap())
    );
    let rare = Ratio::new(1, 128).unwrap();
    // no sum at all is asked for, so nothing has to fit
    assert_eq!(
        osrs_cli::math::checked_binomial_cdf(rare, 1000, &Vec::new()),
        Some(Ratio::new(0, 1).unwrap())
    );
    assert_eq!(
        osrs_cli::math::checked_binomial_cdf(rare, 18, &vec![0]),
        Some(Ratio::new(127u128.pow(18), 1 << 126).unwrap())
    );
    // two terms of that size cannot be added
    assert_eq!(osrs_cli::math::checked_binomial_cdf(rare, 18, &vec![0, 0, 0, 0]), None);
    assert_eq!(osrs_cli::math::checked_binomial_cdf(rare, 18, &vec![0, 1]), None);
    // the whole distribution adds up to one
    let all: Vec<usize> = (0..=10).collect();
    assert_eq!(
        osrs_cli::math::checked_binomial_cdf(Ratio::new(3, 7).unwrap(), 10, &all),
        Some(Ratio::new(1, 1).unwrap())
    );
}
