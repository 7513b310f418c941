//! The mathematics of herb farming, apart from any machine arithmetic: how
//! likely a herb is to live, how many leaves a living patch gives, and what
//! a patch is worth.

use crate::config::FarmingHerbsConfig;
use crate::error::FarmError;
use crate::farm::Compost;
use crate::item::{avg_price, price_or_zero, ItemPrice};
use crate::magic::{resurrect_success, RESURRECT_CROPS_LEVEL};
use crate::reals::{
    lemma_floor_of_quotient, lemma_quotient_of_products, lemma_real_product,
    lemma_sum_over_denominator,
};
use vstd::prelude::*;

verus! {

/// The chance in 128ths that a herb catches a disease in one growth cycle,
/// before anything lowers it: the better the compost, the smaller.
pub open spec fn compost_disease_numer(compost: Option<Compost>) -> int {
    match compost {
        None => 27,
        Some(Compost::Normal) => 14,
        Some(Compost::Supercompost) => 6,
        Some(Compost::Ultracompost) => 3,
    }
}

/// The chance that a herb lives through all three growth cycles in which it
/// can catch a disease, when each cycle kills it with chance `p` and nothing
/// is done about it.
pub open spec fn base_survival(p: real) -> real {
    (1real - p) * (1real - p) * (1real - p)
}

/// The chance that a herb is alive at the end of its growth. Without a
/// rescue that is the chance of no disease in three cycles. With a rescue
/// that succeeds with chance `r` one disease may strike, in any of the three
/// cycles, and be undone; a second one kills the herb.
pub open spec fn survival(p: real, rescue: Option<real>) -> real {
    match rescue {
        None => base_survival(p),
        Some(r) => base_survival(p) + 3real * ((1real - p) * (1real - p)) * p * r,
    }
}

/// The chance that the rescue spell is cast on a patch: never when it is not
/// in use, and otherwise whenever the herb would have died without it.
pub open spec fn cast_chance(p: real, rescue: Option<real>) -> real {
    match rescue {
        None => 0real,
        Some(_) => 1real - base_survival(p),
    }
}

/// What the configuration and the magic level say about the rescue spell:
/// that it is not used, or that it is used and how often it succeeds, or
/// that it is asked for but cannot be cast.
pub open spec fn rescue_plan(
    herb_cfg: &FarmingHerbsConfig,
    magic_level: Option<usize>,
) -> Result<Option<real>, FarmError> {
    if !herb_cfg.resurrect_crops {
        Ok(None)
    } else {
        match magic_level {
            None => Err(FarmError::MagicLevelMissing),
            Some(level) => if level < RESURRECT_CROPS_LEVEL {
                Err(FarmError::MagicLevelTooLow { required: RESURRECT_CROPS_LEVEL, actual: level })
            } else {
                Ok(Some(resurrect_success(level as int)))
            },
        }
    }
}

/// The number of 128ths in a whole, cubed: the denominator of a chance over
/// three cycles.
pub const CUBE_128: u128 = 2097152;

/// The denominator over which every survival chance can be counted: three
/// cycles in 128ths and a rescue in 84ths.
pub const SURVIVAL_DENOM: u128 = 176160768;

/// A rescue chance counted in 84ths, as the number it stands for.
pub open spec fn in_84ths(rescue: Option<u128>) -> Option<real> {
    match rescue {
        None => None,
        Some(n) => Some(n as real / 84real),
    }
}

/// The survival chance counted over `SURVIVAL_DENOM`, from the disease
/// chance in 128ths and the rescue chance in 84ths.
pub open spec fn survival_numer(d: int, rescue: Option<u128>) -> int {
    let s = 128 - d;
    match rescue {
        None => 84 * (s * s * s),
        Some(n) => 84 * (s * s * s) + 3 * (s * s) * d * n,
    }
}

/// The count over `SURVIVAL_DENOM` is the survival chance, and never more
/// than the whole.
pub proof fn lemma_survival_numer(d: int, rescue: Option<u128>)
    requires
        0 <= d <= 128,
        rescue matches Some(n) ==> n <= 84,
    ensures
        0 <= survival_numer(d, rescue) <= SURVIVAL_DENOM,
        survival_numer(d, rescue) as real / (SURVIVAL_DENOM as real) == survival(
            d as real / 128real,
            in_84ths(rescue),
        ),
{
    let s = 128 - d;
    let (sr, dr) = (s as real, d as real);
    let p = dr / 128real;
    assert(1real - p == sr / 128real) by (nonlinear_arith)
        requires
            sr == 128real - dr,
            p == dr / 128real,
    ;
    lemma_real_product(s, s);
    lemma_real_product(s * s, s);
    assert(0 <= s * s <= 128 * 128 && 0 <= s * s * s <= 128 * 128 * 128) by (nonlinear_arith)
        requires
            0 <= s <= 128,
    ;
    let cube = (s * s * s) as real;
    assert(cube == sr * sr * sr);
    assert(base_survival(p) == cube / 2097152real) by (nonlinear_arith)
        requires
            1real - p == sr / 128real,
            cube == sr * sr * sr,
            base_survival(p) == (1real - p) * (1real - p) * (1real - p),
    ;
    match rescue {
        None => {
            assert((84 * (s * s * s)) as real == 84real * cube);
            assert((84real * cube) / 176160768real == cube / 2097152real) by (nonlinear_arith);
        },
        Some(n) => {
            let nr = n as real;
            let extra = 3 * (s * s) * d * n;
            lemma_real_product(s * s, d);
            lemma_real_product(s * s * d, n as int);
            assert(extra == 3 * (s * s * d * n)) by (nonlinear_arith)
                requires
                    extra == 3 * (s * s) * d * n,
            ;
            assert(extra as real == 3real * (sr * sr * dr * nr));
            assert(0 <= extra && 84 * (s * s * s) + extra <= 176160768) by (nonlinear_arith)
                requires
                    extra == 3 * (s * s) * d * n,
                    0 <= n <= 84,
                    0 <= d <= 128,
                    s == 128 - d,
            ;
            assert(3real * ((1real - p) * (1real - p)) * p * (nr / 84real) == (3real * (sr * sr
                * dr * nr)) / 176160768real) by (nonlinear_arith)
                requires
                    1real - p == sr / 128real,
                    p == dr / 128real,
            ;
            assert((84real * cube + 3real * (sr * sr * dr * nr)) / 176160768real == cube
                / 2097152real + (3real * (sr * sr * dr * nr)) / 176160768real)
                by (nonlinear_arith);
        },
    }
}

/// The chance that the rescue spell is cast, counted over `CUBE_128`.
pub open spec fn cast_numer(d: int, rescue: Option<u128>) -> int {
    let s = 128 - d;
    match rescue {
        None => 0,
        Some(_) => CUBE_128 - s * s * s,
    }
}

/// The count over `CUBE_128` is the chance of a cast, and never more than
/// the whole.
pub proof fn lemma_cast_numer(d: int, rescue: Option<u128>)
    requires
        0 <= d <= 128,
    ensures
        0 <= cast_numer(d, rescue) <= CUBE_128,
        cast_numer(d, rescue) as real / (CUBE_128 as real) == cast_chance(
            d as real / 128real,
            in_84ths(rescue),
        ),
{
    let s = 128 - d;
    let (sr, dr) = (s as real, d as real);
    let p = dr / 128real;
    lemma_real_product(s, s);
    lemma_real_product(s * s, s);
    assert(0 <= s * s * s <= 128 * 128 * 128) by (nonlinear_arith)
        requires
            0 <= s <= 128,
    ;
    let cube = (s * s * s) as real;
    match rescue {
        None => {
            assert(0real / 2097152real == 0real) by (nonlinear_arith);
        },
        Some(_) => {
            assert((2097152real - cube) / 2097152real == 1real - (1real - p) * (1real - p) * (1real
                - p)) by (nonlinear_arith)
                requires
                    sr == 128real - dr,
                    p == dr / 128real,
                    cube == sr * sr * sr,
            ;
        },
    }
}

/// The point on a herb's yield curve at a farming level: the straight line
/// through the curve's two ends, at level 1 and at level 99.
pub open spec fn interpolated_chance(ends: (usize, usize), level: int) -> real {
    ends.0 as real * (99 - level) as real / 98real + ends.1 as real * (level - 1) as real / 98real
}

/// The chance in 256ths that picking a leaf does not use up a harvest life.
/// The point on the yield curve is rounded down, raised by the bonus of the
/// equipped items and rounded down, then raised by the bonus of the patch;
/// one is added and the result is rounded down once more.
pub open spec fn save_chance_numer(
    ends: (usize, usize),
    level: int,
    item_bonus: real,
    patch_bonus: real,
) -> int {
    let base = interpolated_chance(ends, level).floor();
    let with_items = (base as real * (1real + item_bonus)).floor();
    (with_items as real * (1real + patch_bonus) + 1real).floor()
}

/// The chance in 256ths to save a harvest life, worked out in whole
/// numbers from bonuses in whole percent: every rounding step is an integer
/// division.
pub open spec fn save_count_of(ends: (usize, usize), level: int, ip: int, pp: int) -> int {
    let on_curve = (ends.0 * 98 + (ends.1 - ends.0) * (level - 1)) / 98;
    let with_items = on_curve * (100 + ip) / 100;
    with_items * (100 + pp) / 100 + 1
}

/// With bonuses in whole percent the chance to save a harvest life can be
/// worked out in whole numbers, and it is at least one 256th.
pub proof fn lemma_save_chance_numer(ends: (usize, usize), level: int, ip: int, pp: int)
    requires
        1 <= level,
        ends.0 <= ends.1,
        0 <= ip,
        0 <= pp,
    ensures
        save_chance_numer(ends, level, ip as real / 100real, pp as real / 100real)
            == save_count_of(ends, level, ip, pp),
        1 <= save_count_of(ends, level, ip, pp),
{
    let (v1, v99) = (ends.0 as int, ends.1 as int);
    let n0 = v1 * (99 - level) + v99 * (level - 1);
    let base = n0 / 98;
    assert(n0 == v1 * 98 + (v99 - v1) * (level - 1) && 0 <= n0) by (nonlinear_arith)
        requires
            n0 == v1 * (99 - level) + v99 * (level - 1),
            1 <= level,
            0 <= v1 <= v99,
    ;
    assert(0 <= base);
    lemma_real_product(v1, 99 - level);
    lemma_real_product(v99, level - 1);
    let (a, b) = ((v1 * (99 - level)) as real, (v99 * (level - 1)) as real);
    assert(a / 98real + b / 98real == (a + b) / 98real) by (nonlinear_arith);
    assert(interpolated_chance(ends, level) == n0 as real / 98real);
    lemma_floor_of_quotient(n0, 98);
    assert(interpolated_chance(ends, level).floor() == base);

    let n1 = base * (100 + ip);
    let with_items = n1 / 100;
    lemma_real_product(base, 100 + ip);
    let (br, ir) = (base as real, ip as real);
    assert(br * (1real + ir / 100real) == (br * (100real + ir)) / 100real) by (nonlinear_arith);
    lemma_floor_of_quotient(n1, 100);
    assert((base as real * (1real + ip as real / 100real)).floor() == with_items);
    assert(0 <= n1) by (nonlinear_arith)
        requires
            n1 == base * (100 + ip),
            0 <= base,
            0 <= ip,
    ;
    assert(0 <= with_items);

    let n2 = with_items * (100 + pp);
    lemma_real_product(with_items, 100 + pp);
    let (wr, pr) = (with_items as real, pp as real);
    assert(wr * (1real + pr / 100real) + 1real == (wr * (100real + pr) + 100real) / 100real)
        by (nonlinear_arith);
    lemma_floor_of_quotient(n2 + 100, 100);
    assert(0 <= n2) by (nonlinear_arith)
        requires
            n2 == with_items * (100 + pp),
            0 <= with_items,
            0 <= pp,
    ;
    assert((n2 + 100) / 100 == n2 / 100 + 1);
}

/// Up to farming level 99, with a yield curve that ends at 80 and the
/// bonuses that there are, the chance to save a harvest life is at most 111
/// of 256.
pub proof fn lemma_save_count_bound(ends: (usize, usize), level: int, ip: int, pp: int)
    requires
        1 <= level <= 99,
        ends.0 <= ends.1 <= 80,
        0 <= ip <= 15,
        0 <= pp <= 20,
    ensures
        save_count_of(ends, level, ip, pp) <= 111,
{
    let (v1, v99) = (ends.0 as int, ends.1 as int);
    let n0 = v1 * 98 + (v99 - v1) * (level - 1);
    assert(0 <= n0 <= v99 * 98) by (nonlinear_arith)
        requires
            n0 == v1 * 98 + (v99 - v1) * (level - 1),
            1 <= level <= 99,
            0 <= v1 <= v99,
    ;
    let base = n0 / 98;
    assert(0 <= base <= 80);
    let n1 = base * (100 + ip);
    assert(0 <= n1 <= 80 * 115) by (nonlinear_arith)
        requires
            n1 == base * (100 + ip),
            0 <= base <= 80,
            0 <= ip <= 15,
    ;
    let with_items = n1 / 100;
    assert(0 <= with_items <= 92);
    let n2 = with_items * (100 + pp);
    assert(0 <= n2 <= 92 * 120) by (nonlinear_arith)
        requires
            n2 == with_items * (100 + pp),
            0 <= with_items <= 92,
            0 <= pp <= 20,
    ;
}

/// The chance to save a harvest life never falls as the farming level
/// rises.
pub proof fn lemma_save_count_rises(
    ends: (usize, usize),
    lower_level: int,
    higher_level: int,
    ip: int,
    pp: int,
)
    requires
        1 <= lower_level <= higher_level,
        ends.0 <= ends.1,
        0 <= ip,
        0 <= pp,
    ensures
        save_count_of(ends, lower_level, ip, pp) <= save_count_of(ends, higher_level, ip, pp),
{
    let (v1, v99) = (ends.0 as int, ends.1 as int);
    let n_low = v1 * 98 + (v99 - v1) * (lower_level - 1);
    let n_high = v1 * 98 + (v99 - v1) * (higher_level - 1);
    assert(0 <= n_low <= n_high) by (nonlinear_arith)
        requires
            n_low == v1 * 98 + (v99 - v1) * (lower_level - 1),
            n_high == v1 * 98 + (v99 - v1) * (higher_level - 1),
            1 <= lower_level <= higher_level,
            0 <= v1 <= v99,
    ;
    vstd::arithmetic::div_mod::lemma_div_is_ordered(n_low, n_high, 98);
    let (b_low, b_high) = (n_low / 98, n_high / 98);
    assert(b_low * (100 + ip) <= b_high * (100 + ip)) by (nonlinear_arith)
        requires
            b_low <= b_high,
            0 <= ip,
    ;
    vstd::arithmetic::div_mod::lemma_div_is_ordered(
        b_low * (100 + ip),
        b_high * (100 + ip),
        100,
    );
    let (w_low, w_high) = (b_low * (100 + ip) / 100, b_high * (100 + ip) / 100);
    assert(w_low * (100 + pp) <= w_high * (100 + pp)) by (nonlinear_arith)
        requires
            w_low <= w_high,
            0 <= pp,
    ;
    vstd::arithmetic::div_mod::lemma_div_is_ordered(
        w_low * (100 + pp),
        w_high * (100 + pp),
        100,
    );
}

/// The expected number of leaves from a patch that has lived to be
/// harvested: picking goes on until the harvest lives are used up, and each
/// pick uses one up except with the chance to save it.
pub open spec fn yield_when_mature(lives: int, save_chance: real) -> real {
    lives as real / (1real - save_chance)
}

/// Counted in 256ths, the yield of a mature patch is a quotient of two
/// integers.
pub proof fn lemma_yield_when_mature(lives: int, c: int)
    requires
        0 <= c < 256,
    ensures
        yield_when_mature(lives, c as real / 256real) == (lives * 256) as real / (256 - c) as real,
{
    let (l, cr) = (lives as real, c as real);
    assert((l * 256real) / (256real - cr) == l / (1real - cr / 256real)) by (nonlinear_arith)
        requires
            0real <= cr < 256real,
    ;
}

/// The expected profit of a patch: what the expected yield sells for, less
/// the seed, the compost and the runes that are expected to be used. A price
/// that is missing counts as nothing. Money comes in whole coins: the
/// revenue and the rune cost are each rounded down.
pub open spec fn expected_profit(
    herb_price: Option<usize>,
    seed_price: Option<usize>,
    compost_cost: int,
    rune_cost: int,
    observed_yield: real,
    cast: real,
) -> int {
    (price_or_zero(herb_price) as real * observed_yield).floor() - (price_or_zero(seed_price)
        + compost_cost + (rune_cost as real * cast).floor())
}

/// Counted over `SURVIVAL_DENOM`, the expected yield of a patch is a
/// quotient of integers: `s` counts the survival chance and `c` the chance
/// to save a harvest life in 256ths.
pub proof fn lemma_yield_counts(lives: int, c: int, s: int)
    requires
        0 <= c < 256,
    ensures
        (lives * 256 * s) as real / ((256 - c) * SURVIVAL_DENOM) as real == yield_when_mature(
            lives,
            c as real / 256real,
        ) * (s as real / (SURVIVAL_DENOM as real)),
{
    let q = 256 - c;
    lemma_yield_when_mature(lives, c);
    lemma_real_product(lives * 256, s);
    lemma_real_product(q, SURVIVAL_DENOM as int);
    lemma_quotient_of_products(
        (lives * 256) as real,
        q as real,
        s as real,
        SURVIVAL_DENOM as real,
    );
}

/// A whole number of experience points over twice a denominator.
pub proof fn lemma_whole_term(x: int, den: int)
    requires
        den > 0,
    ensures
        (x * 2 * den) as real / (2 * den) as real == x as real,
{
    let (xr, dr) = (x as real, den as real);
    lemma_real_product(x * 2, den);
    assert(((xr * 2real) * dr) / (2real * dr) == xr) by (nonlinear_arith)
        requires
            dr > 0real,
    ;
}

/// Half a point of experience for every survivor.
pub proof fn lemma_survivor_term(halves: int, s: int, q: int, d: int)
    requires
        q > 0,
        d > 0,
    ensures
        (halves * s * q) as real / (2 * (q * d)) as real == halves as real / 2real * (s as real
            / d as real),
{
    let (h, sr, qr, dr) = (halves as real, s as real, q as real, d as real);
    lemma_real_product(halves, s);
    lemma_real_product(halves * s, q);
    lemma_real_product(q, d);
    assert(((h * sr) * qr) / (2real * (qr * dr)) == h / 2real * (sr / dr)) by (nonlinear_arith)
        requires
            qr > 0real,
            dr > 0real,
    ;
}

/// Half a point of experience for every leaf.
pub proof fn lemma_leaf_term(halves: int, num: int, den: int)
    requires
        den > 0,
    ensures
        (halves * num) as real / (2 * den) as real == halves as real / 2real * (num as real
            / den as real),
{
    let (h, n, d) = (halves as real, num as real, den as real);
    lemma_real_product(halves, num);
    assert((h * n) / (2real * d) == h / 2real * (n / d)) by (nonlinear_arith)
        requires
            d > 0real,
    ;
}

/// Counted over twice the denominator of the yield, the expected
/// experience of a patch is a quotient of integers: `plant2` and `harvest2`
/// are twice the experience for planting and for one leaf.
pub proof fn lemma_xp_counts(lives: int, c: int, s: int, compost_xp: int, plant2: int, harvest2: int)
    requires
        0 <= c < 256,
    ensures
        (compost_xp * 2 * ((256 - c) * SURVIVAL_DENOM) + plant2 * s * (256 - c) + harvest2 * (lives
            * 256 * s)) as real / (2 * ((256 - c) * SURVIVAL_DENOM)) as real == compost_xp as real
            + plant2 as real / 2real * (s as real / (SURVIVAL_DENOM as real)) + harvest2 as real
            / 2real * (yield_when_mature(lives, c as real / 256real) * (s as real / (
        SURVIVAL_DENOM as real))),
{
    let q = 256 - c;
    let d = SURVIVAL_DENOM as int;
    let yn = lives * 256 * s;
    let yd = q * d;
    assert(yd > 0) by (nonlinear_arith)
        requires
            yd == q * d,
            q > 0,
            d > 0,
    ;
    lemma_yield_counts(lives, c, s);
    lemma_whole_term(compost_xp, yd);
    lemma_survivor_term(plant2, s, q, d);
    lemma_leaf_term(harvest2, yn, yd);
    let t1 = (compost_xp * 2 * yd) as real;
    let t2 = (plant2 * s * q) as real;
    let t3 = (harvest2 * yn) as real;
    lemma_sum_over_denominator(t1, t2, t3, (2 * yd) as real);
    assert((compost_xp * 2 * yd + plant2 * s * q + harvest2 * yn) as real == t1 + t2 + t3);
}

/// The price of the compost for one patch: nothing without compost, the
/// price of a bucket otherwise, and half of that, rounded down, from a
/// bottomless bucket, which spreads every bucket twice.
pub open spec fn compost_price(herb_cfg: &FarmingHerbsConfig, prices: Map<usize, ItemPrice>) -> int {
    match herb_cfg.compost {
        None => 0,
        Some(compost) => {
            let bucket = price_or_zero(avg_price(prices, compost.item_id()));
            if herb_cfg.bottomless_bucket {
                bucket / 2
            } else {
                bucket
            }
        },
    }
}

} // verus!
