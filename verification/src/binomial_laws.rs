//! What always holds of the binomial distribution.

use crate::math::{binom, binomial_pmf, lemma_binom_zero_beyond, rpow};
use crate::model::{base_survival, survival};
use vstd::prelude::*;

verus! {

/// The chance of no success in three trials is the chance that a herb
/// lives through three growth cycles without a rescue, when a success is
/// a disease.
pub proof fn lemma_three_cycles_without_disease(p: real)
    ensures
        binomial_pmf(p, 3, 0) == base_survival(p),
        binomial_pmf(p, 3, 0) == survival(p, None),
{
    let q = 1real - p;
    assert(binom(3, 0) == 1);
    assert(rpow(p, 0) == 1real);
    assert(rpow(q, 0) == 1real);
    assert(rpow(q, 1) == q * rpow(q, 0));
    assert(rpow(q, 2) == q * rpow(q, 1));
    assert(rpow(q, 3) == q * rpow(q, 2));
    assert(1real * 1real * (q * (q * (q * 1real))) == q * q * q) by (nonlinear_arith);
}


/// The chances of `0, 1, ..., upto` successes in `n` trials, added up.
pub open spec fn pmf_sum(p: real, n: nat, upto: nat) -> real
    decreases upto,
{
    if upto == 0 {
        binomial_pmf(p, n, 0)
    } else {
        pmf_sum(p, n, (upto - 1) as nat) + binomial_pmf(p, n, upto)
    }
}


/// More successes than trials have no chance.
pub proof fn lemma_pmf_beyond(p: real, n: nat, k: nat)
    requires
        k > n,
    ensures
        binomial_pmf(p, n, k) == 0real,
{
    lemma_binom_zero_beyond(n, k);
    let (x, y) = (rpow(p, k), rpow(1real - p, (n - k) as nat));
    assert(0real * x * y == 0real) by (nonlinear_arith);
}


/// A factor can be moved into a product.
pub proof fn lemma_move_inside(x: real, a: real, b: real)
    ensures
        x * (a * b) == a * (x * b),
        x * (a * b) == (x * a) * b,
        x * (a * b) == (a * x) * b,
{
    assert(x * (a * b) == a * (x * b) && x * (a * b) == (x * a) * b && x * (a * b) == (a * x) * b)
        by (nonlinear_arith);
}

/// A product distributes over a sum.
pub proof fn lemma_distribute(a: real, b: real, c: real)
    ensures
        (a + b) * c == a * c + b * c,
        c * (a + b) == c * a + c * b,
{
    assert((a + b) * c == a * c + b * c && c * (a + b) == c * a + c * b) by (nonlinear_arith);
}

/// One more trial: `k` successes come from `k` successes and a failure, or
/// from `k - 1` successes and a success.
pub proof fn lemma_pmf_step(p: real, n: nat, k: nat)
    requires
        k >= 1,
    ensures
        binomial_pmf(p, n + 1, k) == (1real - p) * binomial_pmf(p, n, k) + p * binomial_pmf(
            p,
            n,
            (k - 1) as nat,
        ),
{
    let q = 1real - p;
    let k1 = (k - 1) as nat;
    if k > n + 1 {
        lemma_pmf_beyond(p, n + 1, k);
        lemma_pmf_beyond(p, n, k);
        lemma_pmf_beyond(p, n, k1);
    } else {
        // binom(n + 1, k) == binom(n, k - 1) + binom(n, k), by definition
        let c_less = binom(n, k1) as real;
        let c_same = binom(n, k) as real;
        assert(binom(n + 1, k) as real == c_less + c_same);
        let pk1 = rpow(p, k1);
        let a = p * pk1;
        assert(rpow(p, k) == a);
        // the failures after the extra trial
        let up = (n + 1 - k) as nat;
        let b = rpow(q, up);
        assert((n - k1) as nat == up);
        assert(binomial_pmf(p, n + 1, k) == ((c_less + c_same) * a) * b);
        assert(binomial_pmf(p, n, k1) == (c_less * pk1) * b);
        lemma_distribute(c_less, c_same, a);
        lemma_distribute(c_less * a, c_same * a, b);
        // a success on top of k - 1 successes
        lemma_move_inside(p, c_less * pk1, b);
        lemma_move_inside(p, c_less, pk1);
        assert(p * binomial_pmf(p, n, k1) == (c_less * a) * b);
        // a failure on top of k successes
        if k == n + 1 {
            lemma_pmf_beyond(p, n, k);
            lemma_binom_zero_beyond(n, k);
            assert(c_same == 0real);
            assert((c_same * a) * b == 0real);
        } else {
            let down = (n - k) as nat;
            let q_down = rpow(q, down);
            assert(up == down + 1);
            assert(b == q * q_down);
            assert(binomial_pmf(p, n, k) == (c_same * a) * q_down);
            lemma_move_inside(q, c_same * a, q_down);
            assert(q * binomial_pmf(p, n, k) == (c_same * a) * b);
        }
    }
}

/// One more trial, for the chances added up.
pub proof fn lemma_pmf_sum_step(p: real, n: nat, upto: nat)
    ensures
        pmf_sum(p, n + 1, upto) == (1real - p) * pmf_sum(p, n, upto) + p * (if upto == 0 {
            0real
        } else {
            pmf_sum(p, n, (upto - 1) as nat)
        }),
    decreases upto,
{
    let q = 1real - p;
    if upto == 0 {
        // no success in n + 1 trials: no success in n trials and a failure
        assert(binom(n + 1, 0) == 1 && binom(n, 0) == 1);
        let rest = rpow(q, n);
        assert(rpow(q, n + 1) == q * rest);
        assert(rpow(p, 0) == 1real);
        assert((n + 1 - 0) as nat == n + 1 && (n - 0) as nat == n);
        let one = binom(n, 0) as real * rpow(p, 0);
        assert(one == 1real);
        assert(binomial_pmf(p, n, 0) == one * rpow(1real - p, n));
        assert(binomial_pmf(p, n, 0) == rest);
        assert(binom(n + 1, 0) as real * rpow(p, 0) == 1real);
        assert(binomial_pmf(p, n + 1, 0) == one * rpow(1real - p, n + 1));
        assert(binomial_pmf(p, n + 1, 0) == q * rest);
    } else {
        let before = (upto - 1) as nat;
        lemma_pmf_sum_step(p, n, before);
        lemma_pmf_step(p, n, upto);
        let s_before = pmf_sum(p, n, before);
        let t_upto = binomial_pmf(p, n, upto);
        let t_before = binomial_pmf(p, n, before);
        let earlier = if before == 0 {
            0real
        } else {
            pmf_sum(p, n, (before - 1) as nat)
        };
        assert(s_before == earlier + t_before);
        lemma_distribute(s_before, t_upto, q);
        lemma_distribute(earlier, t_before, p);
    }
}

/// The chances of every possible number of successes add up to one: in
/// `n` trials there are certainly between none and `n` successes.
pub proof fn lemma_binomial_total(p: real, n: nat)
    ensures
        pmf_sum(p, n, n) == 1real,
    decreases n,
{
    if n == 0 {
        assert(binom(0, 0) == 1);
        assert(rpow(p, 0) == 1real && rpow(1real - p, 0) == 1real);
    } else {
        let n1 = (n - 1) as nat;
        lemma_binomial_total(p, n1);
        lemma_pmf_sum_step(p, n1, n);
        lemma_pmf_beyond(p, n1, n);
        let s = pmf_sum(p, n1, n1);
        assert(pmf_sum(p, n1, n) == s + binomial_pmf(p, n1, n));
        lemma_distribute(1real - p, p, s);
    }
}

} // verus!
