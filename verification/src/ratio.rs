//! Exact non-negative fractions.
//!
//! Probabilities and expected quantities are carried as fractions of two
//! machine integers, so that every published figure is exactly the value the
//! model defines, with no rounding anywhere.

use vstd::arithmetic::div_mod::{lemma_fundamental_div_mod, lemma_truncate_middle};
use vstd::prelude::*;

verus! {

/// The greatest common divisor, by Euclid's algorithm. `gcd(0, 0)` is 0.
pub open spec fn gcd(a: nat, b: nat) -> nat
    decreases b,
{
    if b == 0 {
        a
    } else {
        gcd(b, a % b)
    }
}

/// The gcd is positive unless both arguments are zero.
pub proof fn lemma_gcd_positive(a: nat, b: nat)
    requires
        a > 0 || b > 0,
    ensures
        gcd(a, b) > 0,
    decreases b,
{
    if b > 0 {
        lemma_gcd_positive(b, a % b);
    }
}

/// Scaling both arguments scales the gcd.
pub proof fn lemma_gcd_scales(g: nat, x: nat, y: nat)
    ensures
        gcd(g * x, g * y) == g * gcd(x, y),
    decreases y,
{
    if g == 0 {
        assert(g * x == 0 && g * y == 0 && g * gcd(x, y) == 0) by (nonlinear_arith)
            requires
                g == 0,
        ;
    } else if y == 0 {
        assert(g * y == 0) by (nonlinear_arith)
            requires
                y == 0,
        ;
    } else {
        assert(g * y > 0) by (nonlinear_arith)
            requires
                g > 0,
                y > 0,
        ;
        lemma_truncate_middle(x as int, g as int, y as int);
        assert((g * x) % (g * y) == g * (x % y));
        lemma_gcd_scales(g, y, x % y);
    }
}

/// The gcd divides both of its arguments: each is the gcd times a quotient,
/// and the two quotients have no common factor left.
pub proof fn lemma_gcd_quotients(a: nat, b: nat)
    requires
        a > 0 || b > 0,
    ensures
        gcd(a, b) > 0,
        a == gcd(a, b) * (a / gcd(a, b)),
        b == gcd(a, b) * (b / gcd(a, b)),
        gcd(a / gcd(a, b), b / gcd(a, b)) == 1,
{
    lemma_gcd_positive(a, b);
    lemma_gcd_divides(a, b);
    let g = gcd(a, b);
    let x = a / g;
    let y = b / g;
    lemma_fundamental_div_mod(a as int, g as int);
    lemma_fundamental_div_mod(b as int, g as int);
    lemma_gcd_scales(g, x, y);
    assert(gcd(x, y) == 1) by (nonlinear_arith)
        requires
            g == g * gcd(x, y),
            g > 0,
    ;
}

/// The gcd leaves no remainder in either argument.
pub proof fn lemma_gcd_divides(a: nat, b: nat)
    requires
        a > 0 || b > 0,
    ensures
        gcd(a, b) > 0,
        a % gcd(a, b) == 0,
        b % gcd(a, b) == 0,
    decreases b,
{
    lemma_gcd_positive(a, b);
    let g = gcd(a, b);
    if b == 0 {
        assert(a % a == 0) by (nonlinear_arith)
            requires
                a > 0,
        ;
    } else {
        lemma_gcd_divides(b, a % b);
        // g divides b and a % b, and a == b * (a / b) + a % b
        lemma_fundamental_div_mod(a as int, b as int);
        lemma_fundamental_div_mod(b as int, g as int);
        lemma_fundamental_div_mod((a % b) as int, g as int);
        let q = a / b;
        let bq = b / g;
        let rq = (a % b) / g;
        assert(a == g * (bq * q + rq)) by (nonlinear_arith)
            requires
                a == b * q + a % b,
                b == g * bq,
                a % b == g * rq,
        ;
        assert((g * (bq * q + rq)) % g == 0) by (nonlinear_arith)
            requires
                g > 0,
        ;
    }
}

/// Computes the greatest common divisor of two integers.
pub fn gcd_u128(a: u128, b: u128) -> (g: u128)
    ensures
        g == gcd(a as nat, b as nat),
{
    let mut x: u128 = a;
    let mut y: u128 = b;
    while y != 0
        invariant
            gcd(x as nat, y as nat) == gcd(a as nat, b as nat),
        decreases y,
    {
        let r: u128 = x % y;
        x = y;
        y = r;
    }
    x
}

/// An exact non-negative fraction, always held in lowest terms.
#[derive(Clone, Copy, Debug, PartialEq, Eq)]
pub struct Ratio {
    num: u128,
    den: u128,
}

impl View for Ratio {
    type V = real;

    /// The number that the fraction stands for.
    closed spec fn view(&self) -> real {
        self.num as real / self.den as real
    }
}

impl Ratio {
    #[verifier::type_invariant]
    spec fn well_formed(self) -> bool {
        self.den > 0 && gcd(self.num as nat, self.den as nat) == 1
    }

    /// The numerator of the fraction in lowest terms.
    pub closed spec fn spec_numer(self) -> nat {
        self.num as nat
    }

    /// The denominator of the fraction in lowest terms.
    pub closed spec fn spec_denom(self) -> nat {
        self.den as nat
    }

    /// Whether the fraction is `num / den` in lowest terms: numerator and
    /// denominator are those of `num / den` with their greatest common
    /// divisor taken out.
    pub open spec fn is_quotient_of(self, num: u128, den: u128) -> bool {
        &&& self.spec_numer() == num as nat / gcd(num as nat, den as nat)
        &&& self.spec_denom() == den as nat / gcd(num as nat, den as nat)
        &&& gcd(self.spec_numer(), self.spec_denom()) == 1
    }

    /// The fraction `num / den`, reduced to lowest terms, or `None` when `den`
    /// is zero.
    pub fn new(num: u128, den: u128) -> (r: Option<Ratio>)
        ensures
            r is Some <==> den != 0,
            r matches Some(q) ==> q@ == num as real / den as real && q.is_quotient_of(num, den),
    {
        if den == 0 {
            None
        } else {
            Some(Ratio::from_parts(num, den))
        }
    }

    /// The fraction `num / den`, reduced to lowest terms.
    pub fn from_parts(num: u128, den: u128) -> (r: Ratio)
        requires
            den > 0,
        ensures
            r@ == num as real / den as real,
            r.is_quotient_of(num, den),
    {
        let g: u128 = gcd_u128(num, den);
        proof {
            lemma_gcd_quotients(num as nat, den as nat);
        }
        let n: u128 = num / g;
        let d: u128 = den / g;
        proof {
            let (nr, dr, gr) = (n as real, d as real, g as real);
            assert((g * n) as real == gr * nr) by (nonlinear_arith)
                requires
                    gr == g as real,
                    nr == n as real,
            ;
            assert((g * d) as real == gr * dr) by (nonlinear_arith)
                requires
                    gr == g as real,
                    dr == d as real,
            ;
            assert(d > 0) by (nonlinear_arith)
                requires
                    den == g * d,
                    den > 0,
                    g > 0,
            ;
            assert(nr / dr == (gr * nr) / (gr * dr)) by (nonlinear_arith)
                requires
                    gr > 0real,
                    dr > 0real,
            ;
        }
        Ratio { num: n, den: d }
    }

    /// The whole number `n` as a fraction.
    pub fn from_int(n: u128) -> (r: Ratio)
        ensures
            r@ == n as real,
            r.spec_numer() == n,
            r.spec_denom() == 1,
    {
        assert(gcd(n as nat, 1) == 1) by {
            assert(gcd(1, n as nat % 1) == 1);
        }
        let r = Ratio { num: n, den: 1 };
        proof {
            let nr = n as real;
            assert(nr / 1real == nr) by (nonlinear_arith);
            assert(r.den as real == 1real);
        }
        r
    }

    /// The numerator of the fraction in lowest terms.
    pub fn numer(&self) -> (n: u128)
        ensures
            n == self.spec_numer(),
    {
        self.num
    }

    /// The denominator of the fraction in lowest terms. It is never zero.
    pub fn denom(&self) -> (d: u128)
        ensures
            d == self.spec_denom(),
            d > 0,
    {
        proof {
            use_type_invariant(self);
        }
        self.den
    }

    /// The value is the quotient of numerator and denominator, which have no
    /// common factor.
    pub proof fn lemma_view(self)
        ensures
            self@ == self.spec_numer() as real / self.spec_denom() as real,
    {
    }
}

} // verus!
