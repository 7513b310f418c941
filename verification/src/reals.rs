//! Facts about real numbers and about integers seen as real numbers.

use vstd::prelude::*;

verus! {

/// The product of two integers is the product of the two as real numbers.
pub proof fn lemma_real_product(a: int, b: int)
    ensures
        (a * b) as real == a as real * b as real,
{
    let (x, y) = (a as real, b as real);
    assert((a * b) as real == x * y) by (nonlinear_arith)
        requires
            x == a as real,
            y == b as real,
    ;
}

/// Rounding a quotient of integers down gives the integer quotient.
pub proof fn lemma_floor_of_quotient(a: int, b: int)
    requires
        b > 0,
    ensures
        (a as real / b as real).floor() == a / b,
{
    let q = a / b;
    let r = a % b;
    vstd::arithmetic::div_mod::lemma_fundamental_div_mod(a, b);
    let (ar, br, qr, rr) = (a as real, b as real, q as real, r as real);
    lemma_real_product(b, q);
    assert(ar == br * qr + rr);
    assert(qr <= ar / br < qr + 1real) by (nonlinear_arith)
        requires
            ar == br * qr + rr,
            0real <= rr < br,
    ;
}

/// A quotient of products is the product of the quotients.
pub proof fn lemma_quotient_of_products(a: real, b: real, c: real, d: real)
    requires
        b != 0real,
        d != 0real,
    ensures
        (a * c) / (b * d) == (a / b) * (c / d),
{
    assert((a * c) / (b * d) == (a / b) * (c / d)) by (nonlinear_arith)
        requires
            b != 0real,
            d != 0real,
    ;
}

/// A common factor of numerator and denominator cancels.
pub proof fn lemma_cancel_factor(a: real, b: real, k: real)
    requires
        b != 0real,
        k != 0real,
    ensures
        (a * k) / (b * k) == a / b,
{
    assert((a * k) / (b * k) == a / b) by (nonlinear_arith)
        requires
            b != 0real,
            k != 0real,
    ;
}

/// A sum of three terms over a common denominator.
pub proof fn lemma_sum_over_denominator(a: real, b: real, c: real, k: real)
    requires
        k != 0real,
    ensures
        (a + b + c) / k == a / k + b / k + c / k,
{
    assert((a + b + c) / k == a / k + b / k + c / k) by (nonlinear_arith)
        requires
            k != 0real,
    ;
}

/// A price times a quotient of integers, rounded down, is an integer
/// division.
pub proof fn lemma_floor_of_scaled(price: int, num: int, den: int)
    requires
        den > 0,
    ensures
        (price as real * (num as real / den as real)).floor() == (price * num) / den,
{
    let (p, n, d) = (price as real, num as real, den as real);
    lemma_real_product(price, num);
    assert(p * (n / d) == (p * n) / d) by (nonlinear_arith)
        requires
            d > 0real,
    ;
    lemma_floor_of_quotient(price * num, den);
}

/// Scaling numerator and denominator by the same whole number leaves a
/// quotient unchanged.
pub proof fn lemma_scaled_quotient(num: int, den: int, k: int)
    requires
        den > 0,
        k > 0,
    ensures
        den * k > 0,
        (num * k) as real / (den * k) as real == num as real / den as real,
{
    lemma_real_product(num, k);
    lemma_real_product(den, k);
    lemma_cancel_factor(num as real, den as real, k as real);
    assert(den * k > 0) by (nonlinear_arith)
        requires
            den > 0,
            k > 0,
    ;
}

/// Two counts over one denominator add up.
pub proof fn lemma_add_counts(a: int, b: int, den: int)
    requires
        den > 0,
    ensures
        (a + b) as real / den as real == a as real / den as real + b as real / den as real,
{
    let (x, y, d) = (a as real, b as real, den as real);
    assert((x + y) / d == x / d + y / d) by (nonlinear_arith)
        requires
            d > 0real,
    ;
}

/// The average of a sum counted over a denominator.
pub proof fn lemma_average_count(sum: int, den: int, n: int)
    requires
        den > 0,
        n > 0,
    ensures
        n * den > 0,
        sum as real / (n * den) as real == sum as real / den as real / n as real,
{
    let (s, d, k) = (sum as real, den as real, n as real);
    lemma_real_product(n, den);
    assert(s / (k * d) == s / d / k) by (nonlinear_arith)
        requires
            d > 0real,
            k > 0real,
    ;
    assert(n * den > 0) by (nonlinear_arith)
        requires
            den > 0,
            n > 0,
    ;
}

/// A quotient of two quotients of integers is a quotient of integers.
pub proof fn lemma_quotient_of_quotients(a: int, p: int, b: int, q: int)
    requires
        p > 0,
        q > 0,
        b > 0,
    ensures
        b * p > 0,
        (a as real / p as real) / (b as real / q as real) == (a * q) as real / (b * p) as real,
{
    lemma_real_product(a, q);
    lemma_real_product(b, p);
    let (x, pr, y, qr) = (a as real, p as real, b as real, q as real);
    assert((x / pr) / (y / qr) == (x * qr) / (y * pr)) by (nonlinear_arith)
        requires
            pr > 0real,
            qr > 0real,
            y > 0real,
    ;
    assert(b * p > 0) by (nonlinear_arith)
        requires
            b > 0,
            p > 0,
    ;
}

/// A quotient of integers that are not negative is at most one where the
/// upper one is no more than the lower, and only there.
pub proof fn lemma_quotient_within_one(num: int, den: int)
    requires
        0 <= num,
        0 < den,
    ensures
        0real <= num as real / den as real,
        num as real / den as real <= 1real <==> num <= den,
        num as real / den as real == 0real <==> num == 0,
{
    let (n, d) = (num as real, den as real);
    assert(0real <= n / d && (n / d <= 1real <==> n <= d) && (n / d == 0real <==> n == 0real))
        by (nonlinear_arith)
        requires
            0real <= n,
            0real < d,
    ;
}

} // verus!
