//! Exact combinatorics: binomial coefficients and the binomial distribution
//! over exact fractions.

use crate::ratio::Ratio;
use crate::reals::{lemma_quotient_of_products, lemma_real_product};
use vstd::prelude::*;

verus! {

/// The binomial coefficient "`n` choose `k`", defined by Pascal's rule. It is
/// zero whenever `k > n`.
pub open spec fn binom(n: nat, k: nat) -> nat
    decreases n,
{
    if k == 0 {
        1
    } else if n == 0 {
        0
    } else {
        binom((n - 1) as nat, (k - 1) as nat) + binom((n - 1) as nat, k)
    }
}

/// Choosing more items than there are is impossible.
pub proof fn lemma_binom_zero_beyond(n: nat, k: nat)
    requires
        k > n,
    ensures
        binom(n, k) == 0,
    decreases n,
{
    if n > 0 {
        lemma_binom_zero_beyond((n - 1) as nat, (k - 1) as nat);
        lemma_binom_zero_beyond((n - 1) as nat, k);
    }
}

/// There is exactly one way to choose everything.
pub proof fn lemma_binom_all(n: nat)
    ensures
        binom(n, n) == 1,
    decreases n,
{
    if n > 0 {
        lemma_binom_all((n - 1) as nat);
        lemma_binom_zero_beyond((n - 1) as nat, n);
    }
}

/// Whenever `k <= n` there is at least one way to choose.
pub proof fn lemma_binom_positive(n: nat, k: nat)
    requires
        k <= n,
    ensures
        binom(n, k) >= 1,
    decreases n,
{
    if k > 0 && n > 0 {
        lemma_binom_positive((n - 1) as nat, (k - 1) as nat);
    }
}

/// Choosing `k` items out of `n` is the same as choosing the `n - k` items to
/// leave behind.
pub proof fn lemma_binom_symmetric(n: nat, k: nat)
    requires
        k <= n,
    ensures
        binom(n, k) == binom(n, (n - k) as nat),
    decreases n,
{
    if k == 0 {
        lemma_binom_all(n);
    } else if k == n {
        lemma_binom_all(n);
    } else {
        // 0 < k < n
        lemma_binom_symmetric((n - 1) as nat, (k - 1) as nat);
        lemma_binom_symmetric((n - 1) as nat, k);
    }
}

/// The absorption identity: `k * C(n, k) == n * C(n - 1, k - 1)`.
pub proof fn lemma_binom_absorb(n: nat, k: nat)
    requires
        n >= 1,
        k >= 1,
    ensures
        k * binom(n, k) == n * binom((n - 1) as nat, (k - 1) as nat),
    decreases n,
{
    let n1 = (n - 1) as nat;
    let k1 = (k - 1) as nat;
    if n == 1 {
        if k > 1 {
            lemma_binom_zero_beyond(1, k);
            lemma_binom_zero_beyond(0, k1);
        }
    } else if k == 1 {
        // C(n, 1) == C(n - 1, 0) + C(n - 1, 1) and, inductively, C(n - 1, 1) == n - 1
        lemma_binom_absorb(n1, 1);
        assert(binom(n1, 0) == 1);
        assert(binom((n1 - 1) as nat, 0) == 1);
        assert(binom(n, 1) == binom(n1, 0) + binom(n1, 1));
        assert(1 * binom(n1, 1) == n1 * 1);
    } else {
        let n2 = (n - 2) as nat;
        let k2 = (k - 2) as nat;
        lemma_binom_absorb(n1, k);
        lemma_binom_absorb(n1, k1);
        let a = binom(n1, k1);
        let b = binom(n1, k);
        let c = binom(n2, k2);
        let d = binom(n2, k1);
        assert(a == c + d);
        assert(binom(n, k) == a + b);
        assert(k * b == n1 * d);
        assert(k1 * a == n1 * c);
        assert(k * (a + b) == n * a) by (nonlinear_arith)
            requires
                a == c + d,
                k * b == n1 * d,
                k1 * a == n1 * c,
                k1 == k - 1,
                n1 == n - 1,
        ;
    }
}

/// Walking up Pascal's triangle along a diagonal never decreases the
/// coefficient.
pub proof fn lemma_binom_diagonal_increases(m: nat, i: nat, j: nat)
    ensures
        binom(m, i) <= binom(m + j, i + j),
    decreases j,
{
    if j > 0 {
        lemma_binom_diagonal_increases(m, i, (j - 1) as nat);
        assert(binom(m + j, i + j) == binom((m + j - 1) as nat, (i + j - 1) as nat) + binom(
            (m + j - 1) as nat,
            i + j,
        ));
    }
}

/// Computes `n` choose `k` exactly, or `None` when the coefficient does not
/// fit in a `usize`.
///
/// The coefficient is built one factor at a time along a diagonal of Pascal's
/// triangle, so no intermediate value is ever larger than `k` times the
/// result.
pub fn checked_combination(n: usize, k: usize) -> (c: Option<usize>)
    ensures
        c matches Some(v) ==> v == binom(n as nat, k as nat),
        c is None <==> binom(n as nat, k as nat) > usize::MAX,
{
    if k > n {
        proof {
            lemma_binom_zero_beyond(n as nat, k as nat);
        }
        return Some(0);
    }
    // Use the shorter of the two symmetric walks.
    let steps: usize = if k <= n - k {
        k
    } else {
        n - k
    };
    let base: usize = n - steps;
    proof {
        lemma_binom_symmetric(n as nat, k as nat);
        assert(binom(n as nat, k as nat) == binom(n as nat, steps as nat));
    }
    let mut acc: usize = 1;
    let mut i: usize = 0;
    while i < steps
        invariant
            i <= steps,
            steps <= n,
            base == n - steps,
            acc == binom((base + i) as nat, i as nat),
            binom(n as nat, k as nat) == binom(n as nat, steps as nat),
        decreases steps - i,
    {
        let top: u128 = (base as u128) + (i as u128) + 1;
        assert(acc * top <= 0xffff_ffff_ffff_ffff * 0xffff_ffff_ffff_ffff) by (nonlinear_arith)
            requires
                0 <= acc <= 0xffff_ffff_ffff_ffff,
                0 <= top <= 0xffff_ffff_ffff_ffff,
        ;
        let wide: u128 = (acc as u128) * top;
        proof {
            lemma_binom_absorb((base + i + 1) as nat, (i + 1) as nat);
            let next = binom((base + i + 1) as nat, (i + 1) as nat);
            assert((base + i + 1 - 1) as nat == (base + i) as nat);
            assert((i + 1 - 1) as nat == i as nat);
            assert((i + 1) * next == (base + i + 1) * acc);
            assert((base + i + 1) * acc == acc * top) by (nonlinear_arith)
                requires
                    top == base + i + 1,
            ;
            assert((i + 1) * next == wide);
            assert(wide / ((i + 1) as u128) == next) by (nonlinear_arith)
                requires
                    (i + 1) * next == wide,
                    i + 1 > 0,
            ;
        }
        let next: u128 = wide / ((i as u128) + 1);
        if next > usize::MAX as u128 {
            proof {
                lemma_binom_diagonal_increases(
                    (base + i + 1) as nat,
                    (i + 1) as nat,
                    (steps - i - 1) as nat,
                );
                assert((base + i + 1) as nat + (steps - i - 1) as nat == n as nat);
                assert((i + 1) as nat + (steps - i - 1) as nat == steps as nat);
            }
            return None;
        }
        acc = next as usize;
        i = i + 1;
    }
    Some(acc)
}

/// Computes `n` choose `k` exactly. The result is 0 when `k > n`.
pub fn combination(n: usize, k: usize) -> (c: usize)
    requires
        binom(n as nat, k as nat) <= usize::MAX,
    ensures
        c == binom(n as nat, k as nat),
{
    match checked_combination(n, k) {
        Some(c) => c,
        None => 0,
    }
}

/// A whole number raised to a power.
pub open spec fn ipow(base: nat, e: nat) -> nat
    decreases e,
{
    if e == 0 {
        1
    } else {
        base * ipow(base, (e - 1) as nat)
    }
}

/// A real number raised to a power.
pub open spec fn rpow(x: real, e: nat) -> real
    decreases e,
{
    if e == 0 {
        1real
    } else {
        x * rpow(x, (e - 1) as nat)
    }
}

/// The chance of exactly `k` successes in `n` independent trials that each
/// succeed with chance `p`.
pub open spec fn binomial_pmf(p: real, n: nat, k: nat) -> real {
    binom(n, k) as real * rpow(p, k) * rpow(1real - p, (n - k) as nat)
}

/// The chance that the number of successes in `n` trials is one of
/// `k_values`, where a number that is listed twice counts twice.
pub open spec fn binomial_cdf_sum(p: real, n: nat, k_values: Seq<usize>) -> real
    decreases k_values.len(),
{
    if k_values.len() == 0 {
        0real
    } else {
        binomial_cdf_sum(p, n, k_values.drop_last()) + binomial_pmf(p, n, k_values.last() as nat)
    }
}

/// A power of a positive number is positive.
pub proof fn lemma_ipow_positive(base: nat, e: nat)
    requires
        base > 0,
    ensures
        ipow(base, e) > 0,
    decreases e,
{
    if e > 0 {
        lemma_ipow_positive(base, (e - 1) as nat);
        let rest = ipow(base, (e - 1) as nat);
        assert(base * rest > 0) by (nonlinear_arith)
            requires
                base > 0,
                rest > 0,
        ;
    }
}

/// A larger base gives a larger power.
pub proof fn lemma_ipow_base_ordered(small: nat, large: nat, e: nat)
    requires
        small <= large,
    ensures
        ipow(small, e) <= ipow(large, e),
    decreases e,
{
    if e > 0 {
        lemma_ipow_base_ordered(small, large, (e - 1) as nat);
        let (x, y) = (ipow(small, (e - 1) as nat), ipow(large, (e - 1) as nat));
        assert(small * x <= large * y) by (nonlinear_arith)
            requires
                small <= large,
                x <= y,
        ;
    }
}

/// Powers of one base multiply by adding the exponents.
pub proof fn lemma_ipow_adds(base: nat, e1: nat, e2: nat)
    ensures
        ipow(base, e1 + e2) == ipow(base, e1) * ipow(base, e2),
    decreases e1,
{
    if e1 == 0 {
        assert(1 * ipow(base, e2) == ipow(base, e2));
    } else {
        lemma_ipow_adds(base, (e1 - 1) as nat, e2);
        let (x, y) = (ipow(base, (e1 - 1) as nat), ipow(base, e2));
        assert(ipow(base, e1 + e2) == base * ipow(base, (e1 + e2 - 1) as nat));
        assert((e1 + e2 - 1) as nat == (e1 - 1) as nat + e2);
        assert(base * (x * y) == (base * x) * y) by (nonlinear_arith);
    }
}

/// With a base of at least one, a larger exponent gives a larger power.
pub proof fn lemma_ipow_exponent_ordered(base: nat, e1: nat, e2: nat)
    requires
        base >= 1,
        e1 <= e2,
    ensures
        ipow(base, e1) <= ipow(base, e2),
    decreases e2,
{
    if e1 < e2 {
        lemma_ipow_exponent_ordered(base, e1, (e2 - 1) as nat);
        let rest = ipow(base, (e2 - 1) as nat);
        assert(rest <= base * rest) by (nonlinear_arith)
            requires
                base >= 1,
        ;
    }
}

/// A power of a quotient is the quotient of the powers.
pub proof fn lemma_rpow_of_quotient(num: nat, den: nat, e: nat)
    requires
        den > 0,
    ensures
        ipow(den, e) > 0,
        rpow(num as real / den as real, e) == ipow(num, e) as real / ipow(den, e) as real,
    decreases e,
{
    lemma_ipow_positive(den, e);
    if e == 0 {
        assert(1real / 1real == 1real) by (nonlinear_arith);
    } else {
        let e1 = (e - 1) as nat;
        lemma_rpow_of_quotient(num, den, e1);
        lemma_real_product(num as int, ipow(num, e1) as int);
        lemma_real_product(den as int, ipow(den, e1) as int);
        lemma_quotient_of_products(
            num as real,
            den as real,
            ipow(num, e1) as real,
            ipow(den, e1) as real,
        );
    }
}

/// Raises a whole number to a power.
pub fn pow_u128(base: u128, e: usize) -> (r: u128)
    requires
        ipow(base as nat, e as nat) <= u128::MAX,
    ensures
        r == ipow(base as nat, e as nat),
{
    if base == 0 {
        return if e == 0 {
            1
        } else {
            0
        };
    }
    let mut acc: u128 = 1;
    let mut i: usize = 0;
    while i < e
        invariant
            i <= e,
            base >= 1,
            acc == ipow(base as nat, i as nat),
            ipow(base as nat, e as nat) <= u128::MAX,
        decreases e - i,
    {
        proof {
            lemma_ipow_exponent_ordered(base as nat, (i + 1) as nat, e as nat);
            assert(ipow(base as nat, (i + 1) as nat) == base * ipow(base as nat, i as nat));
            assert(base * acc == acc * base) by (nonlinear_arith);
        }
        acc = acc * base;
        i = i + 1;
    }
    acc
}

/// The count of one term of the binomial distribution over the `n`th power
/// of the denominator.
pub open spec fn binomial_numer(num: nat, den: nat, n: nat, k: nat) -> nat {
    binom(n, k) * ipow(num, k) * ipow((den - num) as nat, (n - k) as nat)
}

/// Counted over the `n`th power of the denominator, a term of the binomial
/// distribution is a whole number no larger than the binomial coefficient
/// times that power.
pub proof fn lemma_binomial_numer(num: nat, den: nat, n: nat, k: nat)
    requires
        num <= den,
        den > 0,
        k <= n,
    ensures
        ipow(den, n) > 0,
        ipow(num, k) * ipow((den - num) as nat, (n - k) as nat) <= ipow(den, n),
        binomial_numer(num, den, n, k) <= binom(n, k) * ipow(den, n),
        binomial_numer(num, den, n, k) as real / ipow(den, n) as real == binomial_pmf(
            num as real / den as real,
            n,
            k,
        ),
{
    let rest = (n - k) as nat;
    let miss = (den - num) as nat;
    let (a, f) = (ipow(num, k), ipow(miss, rest));
    let (bk, br) = (ipow(den, k), ipow(den, rest));
    let c = binom(n, k);
    lemma_ipow_positive(den, n);
    lemma_ipow_base_ordered(num, den, k);
    lemma_ipow_base_ordered(miss, den, rest);
    lemma_ipow_adds(den, k, rest);
    assert(k + rest == n);
    assert(a * f <= bk * br) by (nonlinear_arith)
        requires
            a <= bk,
            f <= br,
    ;
    assert(c * a * f <= c * (bk * br)) by (nonlinear_arith)
        requires
            a * f <= bk * br,
    ;
    // the value
    lemma_rpow_of_quotient(num, den, k);
    lemma_rpow_of_quotient(miss, den, rest);
    let (nr, dr) = (num as real, den as real);
    assert(1real - nr / dr == (dr - nr) / dr) by (nonlinear_arith)
        requires
            dr > 0real,
    ;
    assert(miss as real == dr - nr);
    lemma_real_product(c as int, a as int);
    lemma_real_product((c * a) as int, f as int);
    lemma_real_product(bk as int, br as int);
    let (cr, ar, fr, bkr, brr) = (c as real, a as real, f as real, bk as real, br as real);
    assert(((cr * ar) * fr) / (bkr * brr) == cr * (ar / bkr) * (fr / brr)) by (nonlinear_arith)
        requires
            bkr > 0real,
            brr > 0real,
    ;
}

/// The chance of exactly `k` successes in `n` independent trials that each
/// succeed with chance `p`, as an exact fraction.
///
/// A chance above one and more successes than trials make no sense and are
/// not accepted. The fraction is counted over the `n`th power of the
/// denominator of `p`, which must fit in the machine's widest integer
/// together with the binomial coefficient.
pub fn binomial(p: Ratio, n: usize, k: usize) -> (r: Ratio)
    requires
        p.spec_numer() <= p.spec_denom(),
        k <= n,
        binom(n as nat, k as nat) <= usize::MAX,
        binom(n as nat, k as nat) * ipow(p.spec_denom(), n as nat) <= u128::MAX,
    ensures
        r@ == binomial_pmf(p@, n as nat, k as nat),
{
    let num: u128 = p.numer();
    let den: u128 = p.denom();
    let count: u128 = binomial_count(num, den, n, k);
    proof {
        p.lemma_view();
        lemma_binomial_numer(num as nat, den as nat, n as nat, k as nat);
        lemma_binom_positive(n as nat, k as nat);
        let (c, b) = (binom(n as nat, k as nat), ipow(den as nat, n as nat));
        assert(b <= c * b) by (nonlinear_arith)
            requires
                c >= 1,
        ;
    }
    Ratio::from_parts(count, pow_u128(den, n))
}

/// Counts one term of the binomial distribution over the `n`th power of the
/// denominator.
fn binomial_count(num: u128, den: u128, n: usize, k: usize) -> (count: u128)
    requires
        num <= den,
        den > 0,
        k <= n,
        binom(n as nat, k as nat) <= usize::MAX,
        binom(n as nat, k as nat) * ipow(den as nat, n as nat) <= u128::MAX,
    ensures
        count == binomial_numer(num as nat, den as nat, n as nat, k as nat),
{
    proof {
        lemma_binomial_numer(num as nat, den as nat, n as nat, k as nat);
        lemma_binom_positive(n as nat, k as nat);
        lemma_ipow_base_ordered(num as nat, den as nat, k as nat);
        lemma_ipow_base_ordered((den - num) as nat, den as nat, (n - k) as nat);
        lemma_ipow_exponent_ordered(den as nat, k as nat, n as nat);
        lemma_ipow_exponent_ordered(den as nat, (n - k) as nat, n as nat);
        let (c, b) = (binom(n as nat, k as nat), ipow(den as nat, n as nat));
        let (a, f) = (ipow(num as nat, k as nat), ipow((den - num) as nat, (n - k) as nat));
        assert(b <= c * b && c * a <= c * b && c * a * f == c * (a * f) && c * (a * f) <= c * b)
            by (nonlinear_arith)
            requires
                c >= 1,
                a <= b,
                a * f <= b,
        ;
    }
    let c: u128 = combination(n, k) as u128;
    let hits: u128 = pow_u128(num, k);
    let misses: u128 = pow_u128(den - num, n - k);
    c * hits * misses
}

/// The chance that the number of successes in `n` trials is one of
/// `k_values`: the terms of the binomial distribution for each of them,
/// added up.
pub fn binomial_cdf(p: Ratio, n: usize, k_values: &Vec<usize>) -> (r: Ratio)
    requires
        p.spec_numer() <= p.spec_denom(),
        forall|i: int| 0 <= i < k_values.len() ==> k_values[i] <= n,
        forall|i: int|
            0 <= i < k_values.len() ==> #[trigger] binom(n as nat, k_values[i] as nat)
                <= usize::MAX,
        forall|i: int|
            0 <= i < k_values.len() ==> k_values.len() * (#[trigger] binom(
                n as nat,
                k_values[i] as nat,
            ) * ipow(p.spec_denom(), n as nat)) <= u128::MAX,
    ensures
        r@ == binomial_cdf_sum(p@, n as nat, k_values@),
{
    if k_values.len() == 0 {
        return Ratio::from_int(0);
    }
    let num: u128 = p.numer();
    let den: u128 = p.denom();
    proof {
        let len = k_values.len();
        let c = binom(n as nat, k_values[0] as nat);
        let b = ipow(den as nat, n as nat);
        lemma_binom_positive(n as nat, k_values[0] as nat);
        assert(b <= len * (c * b)) by (nonlinear_arith)
            requires
                len >= 1,
                c >= 1,
                b >= 0,
        ;
    }
    let whole: u128 = pow_u128(den, n);
    proof {
        p.lemma_view();
        lemma_ipow_positive(den as nat, n as nat);
        let w = whole as real;
        assert(0real / w == 0real) by (nonlinear_arith)
            requires
                w > 0real,
        ;
    }
    let mut sum: u128 = 0;
    let mut i: usize = 0;
    while i < k_values.len()
        invariant
            i <= k_values.len(),
            num == p.spec_numer(),
            den == p.spec_denom(),
            num <= den,
            den > 0,
            whole == ipow(den as nat, n as nat),
            whole > 0,
            p@ == num as real / den as real,
            forall|j: int| 0 <= j < k_values.len() ==> k_values[j] <= n,
            forall|j: int|
                0 <= j < k_values.len() ==> #[trigger] binom(n as nat, k_values[j] as nat)
                    <= usize::MAX,
            forall|j: int|
                0 <= j < k_values.len() ==> k_values.len() * (#[trigger] binom(
                    n as nat,
                    k_values[j] as nat,
                ) * ipow(den as nat, n as nat)) <= u128::MAX,
            sum as real / whole as real == binomial_cdf_sum(
                p@,
                n as nat,
                k_values@.take(i as int),
            ),
            sum <= bound_so_far(k_values@, n as nat, whole as nat, i as nat),
            bound_so_far(k_values@, n as nat, whole as nat, i as nat) <= u128::MAX,
        decreases k_values.len() - i,
    {
        let k: usize = k_values[i];
        proof {
            let len = k_values.len();
            let step = binom(n as nat, k as nat) * whole;
            assert(step <= len * step) by (nonlinear_arith)
                requires
                    len >= 1,
                    step >= 0,
            ;
            lemma_binomial_numer(num as nat, den as nat, n as nat, k as nat);
            lemma_bound_so_far(k_values@, n as nat, whole as nat, (i + 1) as nat);
            crate::reals::lemma_add_counts(
                sum as int,
                binomial_numer(num as nat, den as nat, n as nat, k as nat) as int,
                whole as int,
            );
            let next = k_values@.take(i + 1);
            assert(next.drop_last() =~= k_values@.take(i as int));
            assert(next.last() == k);
        }
        let count: u128 = binomial_count(num, den, n, k);
        sum = sum + count;
        i = i + 1;
    }
    proof {
        assert(k_values@.take(k_values.len() as int) =~= k_values@);
    }
    Ratio::from_parts(sum, whole)
}

/// The most that the first `upto` terms of a sum of binomial terms can
/// count over `whole`.
pub open spec fn bound_so_far(k_values: Seq<usize>, n: nat, whole: nat, upto: nat) -> nat
    decreases upto,
{
    if upto == 0 || upto > k_values.len() {
        0
    } else {
        bound_so_far(k_values, n, whole, (upto - 1) as nat) + binom(
            n,
            k_values[upto - 1] as nat,
        ) * whole
    }
}

/// If each term, repeated as often as there are terms, fits in the widest
/// integer, so does any part of their sum.
pub proof fn lemma_bound_so_far(k_values: Seq<usize>, n: nat, whole: nat, upto: nat)
    requires
        upto <= k_values.len(),
        forall|j: int|
            0 <= j < k_values.len() ==> k_values.len() * (#[trigger] binom(n, k_values[j] as nat)
                * whole) <= u128::MAX,
    ensures
        bound_so_far(k_values, n, whole, upto) * k_values.len() <= upto * u128::MAX,
        bound_so_far(k_values, n, whole, upto) <= u128::MAX,
    decreases upto,
{
    if upto > 0 {
        lemma_bound_so_far(k_values, n, whole, (upto - 1) as nat);
        let len = k_values.len();
        let before = bound_so_far(k_values, n, whole, (upto - 1) as nat);
        let step = binom(n, k_values[upto - 1] as nat) * whole;
        assert(len * step <= u128::MAX);
        assert((before + step) * len <= upto * u128::MAX) by (nonlinear_arith)
            requires
                before * len <= (upto - 1) * u128::MAX,
                len * step <= u128::MAX,
        ;
        let total = before + step;
        assert(total <= u128::MAX) by (nonlinear_arith)
            requires
                total * len <= upto * u128::MAX,
                1 <= upto <= len,
                total >= 0,
        ;
    } else {
        assert(0 * k_values.len() == 0) by (nonlinear_arith);
    }
}

/// Raises a whole number to a power, or gives `None` when the power does
/// not fit in the widest integer.
pub fn checked_pow_u128(base: u128, e: usize) -> (r: Option<u128>)
    ensures
        r matches Some(v) ==> v == ipow(base as nat, e as nat),
        r is None <==> ipow(base as nat, e as nat) > u128::MAX,
{
    if base <= 1 {
        proof {
            lemma_ipow_small_base(base as nat, e as nat);
        }
        return Some(
            if e == 0 {
                1
            } else {
                base
            },
        );
    }
    let mut acc: u128 = 1;
    let mut i: usize = 0;
    while i < e
        invariant
            i <= e,
            base >= 2,
            acc == ipow(base as nat, i as nat),
        decreases e - i,
    {
        proof {
            assert(ipow(base as nat, (i + 1) as nat) == base * ipow(base as nat, i as nat));
            assert(base * acc == acc * base) by (nonlinear_arith);
            lemma_ipow_exponent_ordered(base as nat, (i + 1) as nat, e as nat);
        }
        acc = match acc.checked_mul(base) {
            Some(next) => next,
            None => {
                return None;
            },
        };
        i = i + 1;
    }
    Some(acc)
}

/// Nought stays nought and one stays one, whatever the power; only the
/// power nought of nought is one.
pub proof fn lemma_ipow_small_base(base: nat, e: nat)
    requires
        base <= 1,
    ensures
        ipow(base, e) == if e == 0 {
            1
        } else {
            base
        },
    decreases e,
{
    if e > 0 {
        lemma_ipow_small_base(base, (e - 1) as nat);
        assert(base * ipow(base, (e - 1) as nat) == base) by (nonlinear_arith)
            requires
                base <= 1,
                ipow(base, (e - 1) as nat) == 1 || ipow(base, (e - 1) as nat) == base,
        ;
    }
}

/// Whether one term of the binomial distribution can be counted: the
/// binomial coefficient and, with it, the `n`th power of the denominator
/// of the chance fit in the machine's integers.
pub open spec fn term_fits(den: nat, n: nat, k: nat) -> bool {
    binom(n, k) <= usize::MAX && binom(n, k) * ipow(den, n) <= u128::MAX
}

/// The chance of exactly `k` successes in `n` independent trials that each
/// succeed with chance `p`, as an exact fraction; or `None` when the
/// fraction cannot be counted in the machine's integers.
pub fn checked_binomial(p: Ratio, n: usize, k: usize) -> (r: Option<Ratio>)
    requires
        p.spec_numer() <= p.spec_denom(),
        k <= n,
    ensures
        r is Some <==> term_fits(p.spec_denom(), n as nat, k as nat),
        r matches Some(chance) ==> chance@ == binomial_pmf(p@, n as nat, k as nat),
{
    let den: u128 = p.denom();
    let c: usize = match checked_combination(n, k) {
        Some(c) => c,
        None => {
            return None;
        },
    };
    proof {
        lemma_binom_positive(n as nat, k as nat);
        let (b, w) = (binom(n as nat, k as nat), ipow(den as nat, n as nat));
        assert(w <= b * w) by (nonlinear_arith)
            requires
                b >= 1,
        ;
    }
    let whole: u128 = match checked_pow_u128(den, n) {
        Some(whole) => whole,
        None => {
            return None;
        },
    };
    match (c as u128).checked_mul(whole) {
        Some(_) => Some(binomial(p, n, k)),
        None => None,
    }
}

/// Whether a sum of terms of the binomial distribution can be counted:
/// each term can, and so can as many of it as there are terms.
pub open spec fn sum_fits(den: nat, n: nat, k_values: Seq<usize>) -> bool {
    forall|i: int|
        0 <= i < k_values.len() ==> {
            &&& #[trigger] binom(n, k_values[i] as nat) <= usize::MAX
            &&& k_values.len() * (binom(n, k_values[i] as nat) * ipow(den, n)) <= u128::MAX
        }
}

/// The chance that the number of successes in `n` trials is one of
/// `k_values`, or `None` when the sum cannot be counted in the machine's
/// integers.
pub fn checked_binomial_cdf(p: Ratio, n: usize, k_values: &Vec<usize>) -> (r: Option<Ratio>)
    requires
        p.spec_numer() <= p.spec_denom(),
        forall|i: int| 0 <= i < k_values.len() ==> k_values[i] <= n,
    ensures
        r is Some <==> sum_fits(p.spec_denom(), n as nat, k_values@),
        r matches Some(chance) ==> chance@ == binomial_cdf_sum(p@, n as nat, k_values@),
{
    let len: usize = k_values.len();
    if len == 0 {
        return Some(binomial_cdf(p, n, k_values));
    }
    let den: u128 = p.denom();
    proof {
        let (b, w) = (binom(n as nat, k_values[0] as nat), ipow(den as nat, n as nat));
        lemma_binom_positive(n as nat, k_values[0] as nat);
        assert(w <= len * (b * w)) by (nonlinear_arith)
            requires
                b >= 1,
                len >= 1,
        ;
    }
    let whole: u128 = match checked_pow_u128(den, n) {
        Some(whole) => whole,
        None => {
            return None;
        },
    };
    let mut i: usize = 0;
    while i < len
        invariant
            i <= len,
            len == k_values.len(),
            den == p.spec_denom(),
            whole == ipow(den as nat, n as nat),
            forall|j: int| 0 <= j < i ==> #[trigger] binom(n as nat, k_values[j] as nat) <= usize::MAX,
            forall|j: int|
                0 <= j < i ==> len * (#[trigger] binom(n as nat, k_values[j] as nat) * ipow(
                    den as nat,
                    n as nat,
                )) <= u128::MAX,
        decreases len - i,
    {
        let c: usize = match checked_combination(n, k_values[i]) {
            Some(c) => c,
            None => {
                return None;
            },
        };
        proof {
            let (b, w) = (binom(n as nat, k_values[i as int] as nat), ipow(den as nat, n as nat));
            assert(b * w <= len * (b * w)) by (nonlinear_arith)
                requires
                    len >= 1,
            ;
            assert((b * w) * len == len * (b * w)) by (nonlinear_arith);
        }
        let term: u128 = match (c as u128).checked_mul(whole) {
            Some(term) => term,
            None => {
                return None;
            },
        };
        if term.checked_mul(len as u128).is_none() {
            return None;
        }
        i = i + 1;
    }
    Some(binomial_cdf(p, n, k_values))
}

} // verus!
