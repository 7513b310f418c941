//! What always holds of the farming model.

use crate::config::FarmingHerbsConfig;
use crate::farm::{Herb, HerbPatch};
use crate::magic::{lemma_resurrect_success_in_84ths, resurrect_success, RESURRECT_CROPS_LEVEL};
use crate::model::{
    base_survival, compost_disease_numer, lemma_save_count_rises, lemma_yield_when_mature,
    survival,
};
use crate::reals::lemma_floor_of_quotient;
use crate::run::sum_survival;
use vstd::prelude::*;

verus! {

/// The chance of disease in one growth cycle is a whole number of 128ths,
/// at most 27 of them, and at least one wherever disease is possible.
pub proof fn lemma_disease_numer_bounds(patch: HerbPatch, herb_cfg: &FarmingHerbsConfig)
    ensures
        0 <= patch.disease_numer(herb_cfg) <= 27,
        patch.disease_free(herb_cfg) <==> patch.disease_numer(herb_cfg) == 0,
        0real <= patch.disease_chance(herb_cfg) <= 27real / 128real,
{
    let base = compost_disease_numer(herb_cfg.compost);
    let b = base as real;
    lemma_floor_of_quotient(base, 5);
    lemma_floor_of_quotient(base, 1);
    assert(b * (1real / 5real) == b / 5real) by (nonlinear_arith);
    assert(b / 1real == b) by (nonlinear_arith);
    let n = patch.disease_numer(herb_cfg) as real;
    assert(0real <= n / 128real <= 27real / 128real) by (nonlinear_arith)
        requires
            0real <= n <= 27real,
    ;
}

/// A herb in a patch that is free of disease is certain to live, whatever
/// the compost, the anima plant and the rescue spell.
pub proof fn lemma_disease_free_survives(
    patch: HerbPatch,
    herb_cfg: &FarmingHerbsConfig,
    rescue: Option<real>,
)
    requires
        patch.disease_free(herb_cfg),
    ensures
        survival(patch.disease_chance(herb_cfg), rescue) == 1real,
{
    let p = patch.disease_chance(herb_cfg);
    assert(p == 0real) by (nonlinear_arith)
        requires
            p == 0real / 128real,
    ;
    assert(base_survival(0real) == 1real) by (nonlinear_arith)
        requires
            base_survival(0real) == (1real - 0real) * (1real - 0real) * (1real - 0real),
    ;
    match rescue {
        None => {},
        Some(r) => {
            assert(3real * ((1real - 0real) * (1real - 0real)) * 0real * r == 0real)
                by (nonlinear_arith);
        },
    }
}

/// With chances of disease and of rescue that are chances at all, using
/// the rescue spell never lowers the chance of survival.
pub proof fn lemma_rescue_never_hurts(p: real, r: real)
    requires
        0real <= p <= 1real,
        0real <= r,
    ensures
        survival(p, None) <= survival(p, Some(r)),
{
    assert(0real <= 3real * ((1real - p) * (1real - p)) * p * r) by (nonlinear_arith)
        requires
            0real <= p <= 1real,
            0real <= r,
    ;
}

/// At any patch, casting Resurrect Crops at a magic level that allows it
/// never lowers the chance that the herb survives.
pub proof fn lemma_resurrect_crops_never_hurts(
    patch: HerbPatch,
    herb_cfg: &FarmingHerbsConfig,
    magic_level: int,
)
    requires
        RESURRECT_CROPS_LEVEL <= magic_level,
    ensures
        survival(patch.disease_chance(herb_cfg), None) <= survival(
            patch.disease_chance(herb_cfg),
            Some(resurrect_success(magic_level)),
        ),
{
    lemma_disease_numer_bounds(patch, herb_cfg);
    lemma_resurrect_success_in_84ths(magic_level);
    lemma_rescue_never_hurts(patch.disease_chance(herb_cfg), resurrect_success(magic_level));
}

/// The chance of survival is a chance: it lies between nothing and
/// certainty.
pub proof fn lemma_survival_is_chance(p: real, rescue: Option<real>)
    requires
        0real <= p <= 1real,
        rescue matches Some(r) ==> 0real <= r <= 1real,
    ensures
        0real <= survival(p, rescue) <= 1real,
{
    let s = 1real - p;
    assert(0real <= s * s * s <= 1real) by (nonlinear_arith)
        requires
            0real <= s <= 1real,
    ;
    match rescue {
        None => {},
        Some(r) => {
            assert(0real <= 3real * (s * s) * p * r && s * s * s + 3real * (s * s) * p * r <= 1real)
                by (nonlinear_arith)
                requires
                    0real <= s <= 1real,
                    p == 1real - s,
                    0real <= r <= 1real,
            ;
        },
    }
}

/// The chance to save a harvest life never falls as the farming level
/// rises.
pub proof fn lemma_save_numer_rises(
    patch: HerbPatch,
    herb_cfg: &FarmingHerbsConfig,
    herb: Herb,
    lower_level: int,
    higher_level: int,
)
    requires
        1 <= lower_level <= higher_level,
    ensures
        1 <= patch.save_numer(herb_cfg, lower_level, herb) <= patch.save_numer(
            herb_cfg,
            higher_level,
            herb,
        ),
        higher_level <= 99 ==> patch.save_numer(herb_cfg, higher_level, herb) <= 111,
{
    let ends = herb.chance_to_save();
    let ip = herb_cfg.item_bonus_percent() as int;
    let pp = (patch.yield_bonus_percent(herb_cfg) + herb_cfg.attas_bonus_percent()) as int;
    patch.lemma_save_numer_bounds(herb_cfg, lower_level, herb);
    patch.lemma_save_numer_bounds(herb_cfg, higher_level, herb);
    lemma_save_count_rises(ends, lower_level, higher_level, ip, pp);
}

/// For one herb and one set of bonuses, the expected yield of a patch that
/// has lived to be harvested never falls as the farming level rises, as
/// long as the harvest comes to an end at the higher level.
pub proof fn lemma_yield_rises_with_level(
    patch: HerbPatch,
    herb_cfg: &FarmingHerbsConfig,
    herb: Herb,
    lower_level: int,
    higher_level: int,
)
    requires
        1 <= lower_level <= higher_level,
        patch.harvest_ends(herb_cfg, higher_level, herb),
    ensures
        patch.harvest_ends(herb_cfg, lower_level, herb),
        patch.mature_yield(herb_cfg, lower_level, herb) <= patch.mature_yield(
            herb_cfg,
            higher_level,
            herb,
        ),
{
    lemma_save_numer_rises(patch, herb_cfg, herb, lower_level, higher_level);
    let lives = herb_cfg.harvest_lives() as int;
    let c_low = patch.save_numer(herb_cfg, lower_level, herb);
    let c_high = patch.save_numer(herb_cfg, higher_level, herb);
    lemma_yield_when_mature(lives, c_low);
    lemma_yield_when_mature(lives, c_high);
    let a = (lives * 256) as real;
    let (q_low, q_high) = ((256 - c_low) as real, (256 - c_high) as real);
    assert(a / q_low <= a / q_high) by (nonlinear_arith)
        requires
            0real <= a,
            0real < q_high <= q_low,
    ;
}

/// A patch that has lived to be harvested yields at least as many leaves
/// as it has harvest lives.
pub proof fn lemma_yield_at_least_lives(
    patch: HerbPatch,
    herb_cfg: &FarmingHerbsConfig,
    herb: Herb,
    farming_level: int,
)
    requires
        1 <= farming_level,
        patch.harvest_ends(herb_cfg, farming_level, herb),
    ensures
        herb_cfg.harvest_lives() as real <= patch.mature_yield(herb_cfg, farming_level, herb),
{
    patch.lemma_save_numer_bounds(herb_cfg, farming_level, herb);
    let lives = herb_cfg.harvest_lives() as int;
    let c = patch.save_numer(herb_cfg, farming_level, herb);
    lemma_yield_when_mature(lives, c);
    let (l, q) = (lives as real, (256 - c) as real);
    assert((lives * 256) as real == l * 256real);
    assert(l <= (l * 256real) / q) by (nonlinear_arith)
        requires
            0real <= l,
            0real < q <= 256real,
    ;
}

/// If every patch of a run survives with a chance between `low` and `high`,
/// so does the sum over the patches, patch for patch.
pub proof fn lemma_sum_survival_bounds(
    patches: Seq<HerbPatch>,
    herb_cfg: &FarmingHerbsConfig,
    rescue: Option<real>,
    low: real,
    high: real,
)
    requires
        forall|i: int|
            0 <= i < patches.len() ==> low <= #[trigger] survival(
                patches[i].disease_chance(herb_cfg),
                rescue,
            ) <= high,
    ensures
        patches.len() as real * low <= sum_survival(patches, herb_cfg, rescue) <= patches.len() as real
            * high,
    decreases patches.len(),
{
    if patches.len() > 0 {
        let front = patches.drop_last();
        assert forall|i: int| 0 <= i < front.len() implies low <= #[trigger] survival(
            front[i].disease_chance(herb_cfg),
            rescue,
        ) <= high by {
            assert(front[i] == patches[i]);
        }
        lemma_sum_survival_bounds(front, herb_cfg, rescue, low, high);
        let last = survival(patches.last().disease_chance(herb_cfg), rescue);
        assert(patches.last() == patches[patches.len() - 1]);
        assert(low <= last <= high);
        let k = front.len() as real;
        assert(patches.len() as real == k + 1real);
        assert((k + 1real) * low == k * low + low && (k + 1real) * high == k * high + high)
            by (nonlinear_arith);
    } else {
        assert(0real * low == 0real && 0real * high == 0real) by (nonlinear_arith);
    }
}

/// The survival chance of a run, which is the average over its patches,
/// lies between the lowest and the highest chance of any one patch.
pub proof fn lemma_average_survival_bounds(
    patches: Seq<HerbPatch>,
    herb_cfg: &FarmingHerbsConfig,
    rescue: Option<real>,
    low: real,
    high: real,
)
    requires
        patches.len() > 0,
        forall|i: int|
            0 <= i < patches.len() ==> low <= #[trigger] survival(
                patches[i].disease_chance(herb_cfg),
                rescue,
            ) <= high,
    ensures
        low <= sum_survival(patches, herb_cfg, rescue) / patches.len() as real <= high,
{
    lemma_sum_survival_bounds(patches, herb_cfg, rescue, low, high);
    let n = patches.len() as real;
    let total = sum_survival(patches, herb_cfg, rescue);
    assert(low <= total / n <= high) by (nonlinear_arith)
        requires
            n > 0real,
            n * low <= total <= n * high,
    ;
}

} // verus!
