//! Herb farming: what a patch is expected to give.
//!
//! A herb grows through three cycles in which it can catch a disease and die.
//! A patch that survives is harvested leaf by leaf until its harvest lives
//! are used up. From the player's levels, items and unlocks this module works
//! out, for each patch and for a whole run, the chance that the herb
//! survives, the expected yield and experience, and the expected profit.
//! Every chance and quantity is an exact fraction.

use crate::config::FarmingHerbsConfig;
use crate::diary::{diary_reached, AchievementDiaryLevel};
use crate::item::{
    avg_price, ItemPrice, WikiItemClient, ITEM_ID_AVANTOE_SEED, ITEM_ID_CADANTINE_SEED, ITEM_ID_COMPOST, ITEM_ID_DWARF_WEED_SEED,
    ITEM_ID_GOUTWEED, ITEM_ID_GOUT_TUBER, ITEM_ID_GRIMY_AVANTOE, ITEM_ID_GRIMY_CADANTINE,
    ITEM_ID_GRIMY_DWARF_WEED, ITEM_ID_GRIMY_GUAM_LEAF, ITEM_ID_GRIMY_HARRALANDER,
    ITEM_ID_GRIMY_IRIT, ITEM_ID_GRIMY_KWUARM, ITEM_ID_GRIMY_LANTADYME, ITEM_ID_GRIMY_MARRENTILL,
    ITEM_ID_GRIMY_RANARR_WEED, ITEM_ID_GRIMY_SNAPDRAGON, ITEM_ID_GRIMY_TARROMIN,
    ITEM_ID_GRIMY_TOADFLAX, ITEM_ID_GRIMY_TORSTOL, ITEM_ID_GUAM_SEED, ITEM_ID_HARRALANDER_SEED,
    ITEM_ID_IRIT_SEED, ITEM_ID_KWUARM_SEED, ITEM_ID_LANTADYME_SEED, ITEM_ID_MARRENTILL_SEED,
    ITEM_ID_RANARR_SEED, ITEM_ID_SNAPDRAGON_SEED, ITEM_ID_SUPERCOMPOST, ITEM_ID_TARROMIN_SEED,
    ITEM_ID_TOADFLAX_SEED, ITEM_ID_TORSTOL_SEED, ITEM_ID_ULTRACOMPOST,
};
use crate::error::FarmError;
use crate::magic::{
    lemma_resurrect_success_in_84ths, runes_cost, Spell, MAX_LEVEL,
    RESURRECT_CROPS_LEVEL,
};
use crate::model::{
    cast_chance, cast_numer, compost_price, expected_profit, in_84ths, lemma_cast_numer,
    lemma_save_chance_numer, lemma_save_count_bound, save_count_of, lemma_xp_counts, lemma_yield_counts, lemma_survival_numer, lemma_yield_when_mature,
    rescue_plan, save_chance_numer, survival, survival_numer, yield_when_mature, CUBE_128,
    SURVIVAL_DENOM, compost_disease_numer,
};
use crate::ratio::Ratio;
use crate::reals::{lemma_floor_of_quotient, lemma_floor_of_scaled};
use vstd::prelude::*;

verus! {

/// The kinds of compost that can be spread on a patch.
#[derive(Copy, Clone, Debug, PartialEq, Eq)]
pub enum Compost {
    Normal,
    Supercompost,
    Ultracompost,
}

impl Compost {
    /// The item that this compost is traded as.
    pub open spec fn spec_item_id(self) -> usize {
        match self {
            Compost::Normal => ITEM_ID_COMPOST,
            Compost::Supercompost => ITEM_ID_SUPERCOMPOST,
            Compost::Ultracompost => ITEM_ID_ULTRACOMPOST,
        }
    }

    /// The item that this compost is traded as.
    #[verifier::when_used_as_spec(spec_item_id)]
    pub fn item_id(self) -> (id: usize)
        ensures
            id == self.spec_item_id(),
    {
        match self {
            Compost::Normal => ITEM_ID_COMPOST,
            Compost::Supercompost => ITEM_ID_SUPERCOMPOST,
            Compost::Ultracompost => ITEM_ID_ULTRACOMPOST,
        }
    }
}

/// A plant that, while it lives, changes how every other crop grows.
#[derive(Copy, Clone, Debug, PartialEq, Eq)]
pub enum AnimaPlant {
    /// Speeds up growth, which changes nothing here.
    Kronos,
    /// Raises the yield.
    Attas,
    /// Lowers the chance of disease.
    Iasor,
}

/// The herbs that can be grown in a herb patch.
#[derive(Copy, Clone, Debug, PartialEq, Eq)]
pub enum Herb {
    Guam,
    Marrentill,
    Tarromin,
    Harralander,
    Goutweed,
    Ranarr,
    Toadflax,
    Irit,
    Avantoe,
    Kwuarm,
    Snapdragon,
    Cadantine,
    Lantadyme,
    Dwarf,
    Torstol,
}

impl Herb {
    /// The farming level required to plant the herb.
    pub open spec fn spec_farming_level(self) -> usize {
        match self {
            Herb::Guam => 9,
            Herb::Marrentill => 14,
            Herb::Tarromin => 19,
            Herb::Harralander => 26,
            Herb::Goutweed => 29,
            Herb::Ranarr => 32,
            Herb::Toadflax => 38,
            Herb::Irit => 44,
            Herb::Avantoe => 50,
            Herb::Kwuarm => 56,
            Herb::Snapdragon => 62,
            Herb::Cadantine => 67,
            Herb::Lantadyme => 73,
            Herb::Dwarf => 79,
            Herb::Torstol => 85,
        }
    }

    /// The farming level required to plant the herb.
    #[verifier::when_used_as_spec(spec_farming_level)]
    pub fn farming_level(self) -> (level: usize)
        ensures
            level == self.spec_farming_level(),
    {
        match self {
            Herb::Guam => 9,
            Herb::Marrentill => 14,
            Herb::Tarromin => 19,
            Herb::Harralander => 26,
            Herb::Goutweed => 29,
            Herb::Ranarr => 32,
            Herb::Toadflax => 38,
            Herb::Irit => 44,
            Herb::Avantoe => 50,
            Herb::Kwuarm => 56,
            Herb::Snapdragon => 62,
            Herb::Cadantine => 67,
            Herb::Lantadyme => 73,
            Herb::Dwarf => 79,
            Herb::Torstol => 85,
        }
    }

    /// The item that is harvested: the grimy herb, or plain goutweed, which
    /// has no grimy form.
    pub open spec fn spec_grimy_herb_item_id(self) -> usize {
        match self {
            Herb::Guam => ITEM_ID_GRIMY_GUAM_LEAF,
            Herb::Marrentill => ITEM_ID_GRIMY_MARRENTILL,
            Herb::Tarromin => ITEM_ID_GRIMY_TARROMIN,
            Herb::Harralander => ITEM_ID_GRIMY_HARRALANDER,
            Herb::Goutweed => ITEM_ID_GOUTWEED,
            Herb::Ranarr => ITEM_ID_GRIMY_RANARR_WEED,
            Herb::Toadflax => ITEM_ID_GRIMY_TOADFLAX,
            Herb::Irit => ITEM_ID_GRIMY_IRIT,
            Herb::Avantoe => ITEM_ID_GRIMY_AVANTOE,
            Herb::Kwuarm => ITEM_ID_GRIMY_KWUARM,
            Herb::Snapdragon => ITEM_ID_GRIMY_SNAPDRAGON,
            Herb::Cadantine => ITEM_ID_GRIMY_CADANTINE,
            Herb::Lantadyme => ITEM_ID_GRIMY_LANTADYME,
            Herb::Dwarf => ITEM_ID_GRIMY_DWARF_WEED,
            Herb::Torstol => ITEM_ID_GRIMY_TORSTOL,
        }
    }

    /// The item that is harvested: the grimy herb, or plain goutweed, which
    /// has no grimy form.
    #[verifier::when_used_as_spec(spec_grimy_herb_item_id)]
    pub fn grimy_herb_item_id(self) -> (id: usize)
        ensures
            id == self.spec_grimy_herb_item_id(),
    {
        match self {
            Herb::Guam => ITEM_ID_GRIMY_GUAM_LEAF,
            Herb::Marrentill => ITEM_ID_GRIMY_MARRENTILL,
            Herb::Tarromin => ITEM_ID_GRIMY_TARROMIN,
            Herb::Harralander => ITEM_ID_GRIMY_HARRALANDER,
            Herb::Goutweed => ITEM_ID_GOUTWEED,
            Herb::Ranarr => ITEM_ID_GRIMY_RANARR_WEED,
            Herb::Toadflax => ITEM_ID_GRIMY_TOADFLAX,
            Herb::Irit => ITEM_ID_GRIMY_IRIT,
            Herb::Avantoe => ITEM_ID_GRIMY_AVANTOE,
            Herb::Kwuarm => ITEM_ID_GRIMY_KWUARM,
            Herb::Snapdragon => ITEM_ID_GRIMY_SNAPDRAGON,
            Herb::Cadantine => ITEM_ID_GRIMY_CADANTINE,
            Herb::Lantadyme => ITEM_ID_GRIMY_LANTADYME,
            Herb::Dwarf => ITEM_ID_GRIMY_DWARF_WEED,
            Herb::Torstol => ITEM_ID_GRIMY_TORSTOL,
        }
    }

    /// The item that is planted: the seed, or for goutweed the tuber.
    pub open spec fn spec_seed_item_id(self) -> usize {
        match self {
            Herb::Guam => ITEM_ID_GUAM_SEED,
            Herb::Marrentill => ITEM_ID_MARRENTILL_SEED,
            Herb::Tarromin => ITEM_ID_TARROMIN_SEED,
            Herb::Harralander => ITEM_ID_HARRALANDER_SEED,
            Herb::Goutweed => ITEM_ID_GOUT_TUBER,
            Herb::Ranarr => ITEM_ID_RANARR_SEED,
            Herb::Toadflax => ITEM_ID_TOADFLAX_SEED,
            Herb::Irit => ITEM_ID_IRIT_SEED,
            Herb::Avantoe => ITEM_ID_AVANTOE_SEED,
            Herb::Kwuarm => ITEM_ID_KWUARM_SEED,
            Herb::Snapdragon => ITEM_ID_SNAPDRAGON_SEED,
            Herb::Cadantine => ITEM_ID_CADANTINE_SEED,
            Herb::Lantadyme => ITEM_ID_LANTADYME_SEED,
            Herb::Dwarf => ITEM_ID_DWARF_WEED_SEED,
            Herb::Torstol => ITEM_ID_TORSTOL_SEED,
        }
    }

    /// The item that is planted: the seed, or for goutweed the tuber.
    #[verifier::when_used_as_spec(spec_seed_item_id)]
    pub fn seed_item_id(self) -> (id: usize)
        ensures
            id == self.spec_seed_item_id(),
    {
        match self {
            Herb::Guam => ITEM_ID_GUAM_SEED,
            Herb::Marrentill => ITEM_ID_MARRENTILL_SEED,
            Herb::Tarromin => ITEM_ID_TARROMIN_SEED,
            Herb::Harralander => ITEM_ID_HARRALANDER_SEED,
            Herb::Goutweed => ITEM_ID_GOUT_TUBER,
            Herb::Ranarr => ITEM_ID_RANARR_SEED,
            Herb::Toadflax => ITEM_ID_TOADFLAX_SEED,
            Herb::Irit => ITEM_ID_IRIT_SEED,
            Herb::Avantoe => ITEM_ID_AVANTOE_SEED,
            Herb::Kwuarm => ITEM_ID_KWUARM_SEED,
            Herb::Snapdragon => ITEM_ID_SNAPDRAGON_SEED,
            Herb::Cadantine => ITEM_ID_CADANTINE_SEED,
            Herb::Lantadyme => ITEM_ID_LANTADYME_SEED,
            Herb::Dwarf => ITEM_ID_DWARF_WEED_SEED,
            Herb::Torstol => ITEM_ID_TORSTOL_SEED,
        }
    }

    /// The two ends of the herb's yield curve: the chance, in 256ths and
    /// before any bonus, that picking a leaf does not use up a harvest life,
    /// at farming level 1 and at farming level 99.
    pub open spec fn spec_chance_to_save(self) -> (usize, usize) {
        match self {
            Herb::Guam => (25, 80),
            Herb::Marrentill => (28, 80),
            Herb::Tarromin => (31, 80),
            Herb::Harralander => (36, 80),
            Herb::Goutweed => (39, 80),
            Herb::Ranarr => (39, 80),
            Herb::Toadflax => (43, 80),
            Herb::Irit => (46, 80),
            Herb::Avantoe => (50, 80),
            Herb::Kwuarm => (54, 80),
            Herb::Snapdragon => (57, 80),
            Herb::Cadantine => (60, 80),
            Herb::Lantadyme => (64, 80),
            Herb::Dwarf => (67, 80),
            Herb::Torstol => (71, 80),
        }
    }

    /// The two ends of the herb's yield curve, at farming level 1 and at
    /// farming level 99. Every level between lies on the straight line
    /// through them.
    #[verifier::when_used_as_spec(spec_chance_to_save)]
    pub fn chance_to_save(self) -> (ends: (usize, usize))
        ensures
            ends == self.spec_chance_to_save(),
    {
        match self {
            Herb::Guam => (25, 80),
            Herb::Marrentill => (28, 80),
            Herb::Tarromin => (31, 80),
            Herb::Harralander => (36, 80),
            Herb::Goutweed => (39, 80),
            Herb::Ranarr => (39, 80),
            Herb::Toadflax => (43, 80),
            Herb::Irit => (46, 80),
            Herb::Avantoe => (50, 80),
            Herb::Kwuarm => (54, 80),
            Herb::Snapdragon => (57, 80),
            Herb::Cadantine => (60, 80),
            Herb::Lantadyme => (64, 80),
            Herb::Dwarf => (67, 80),
            Herb::Torstol => (71, 80),
        }
    }

    /// Twice the experience for planting one seed, which makes every entry a
    /// whole number.
    pub open spec fn plant_xp_halves(self) -> nat {
        match self {
            Herb::Guam => 22,
            Herb::Marrentill => 27,
            Herb::Tarromin => 32,
            Herb::Harralander => 43,
            Herb::Goutweed => 210,
            Herb::Ranarr => 54,
            Herb::Toadflax => 68,
            Herb::Irit => 86,
            Herb::Avantoe => 109,
            Herb::Kwuarm => 138,
            Herb::Snapdragon => 175,
            Herb::Cadantine => 213,
            Herb::Lantadyme => 269,
            Herb::Dwarf => 341,
            Herb::Torstol => 399,
        }
    }

    /// Twice the experience for harvesting one leaf.
    pub open spec fn harvest_xp_halves(self) -> nat {
        match self {
            Herb::Guam => 25,
            Herb::Marrentill => 30,
            Herb::Tarromin => 36,
            Herb::Harralander => 48,
            Herb::Goutweed => 90,
            Herb::Ranarr => 61,
            Herb::Toadflax => 77,
            Herb::Irit => 97,
            Herb::Avantoe => 123,
            Herb::Kwuarm => 156,
            Herb::Snapdragon => 197,
            Herb::Cadantine => 240,
            Herb::Lantadyme => 303,
            Herb::Dwarf => 384,
            Herb::Torstol => 449,
        }
    }

    /// The farming experience for planting one seed.
    pub open spec fn plant_xp(self) -> real {
        self.plant_xp_halves() as real / 2real
    }

    /// The farming experience for harvesting one leaf.
    pub open spec fn harvest_xp(self) -> real {
        self.harvest_xp_halves() as real / 2real
    }

    fn plant_xp_doubled(self) -> (xp: u128)
        ensures
            xp == self.plant_xp_halves(),
    {
        match self {
            Herb::Guam => 22,
            Herb::Marrentill => 27,
            Herb::Tarromin => 32,
            Herb::Harralander => 43,
            Herb::Goutweed => 210,
            Herb::Ranarr => 54,
            Herb::Toadflax => 68,
            Herb::Irit => 86,
            Herb::Avantoe => 109,
            Herb::Kwuarm => 138,
            Herb::Snapdragon => 175,
            Herb::Cadantine => 213,
            Herb::Lantadyme => 269,
            Herb::Dwarf => 341,
            Herb::Torstol => 399,
        }
    }

    fn harvest_xp_doubled(self) -> (xp: u128)
        ensures
            xp == self.harvest_xp_halves(),
    {
        match self {
            Herb::Guam => 25,
            Herb::Marrentill => 30,
            Herb::Tarromin => 36,
            Herb::Harralander => 48,
            Herb::Goutweed => 90,
            Herb::Ranarr => 61,
            Herb::Toadflax => 77,
            Herb::Irit => 97,
            Herb::Avantoe => 123,
            Herb::Kwuarm => 156,
            Herb::Snapdragon => 197,
            Herb::Cadantine => 240,
            Herb::Lantadyme => 303,
            Herb::Dwarf => 384,
            Herb::Torstol => 449,
        }
    }

    /// The farming experience for planting one seed.
    pub fn xp_per_plant(self) -> (xp: Ratio)
        ensures
            xp@ == self.plant_xp(),
    {
        Ratio::from_parts(self.plant_xp_doubled(), 2)
    }

    /// The farming experience for harvesting one leaf.
    pub fn xp_per_harvest(self) -> (xp: Ratio)
        ensures
            xp@ == self.harvest_xp(),
    {
        Ratio::from_parts(self.harvest_xp_doubled(), 2)
    }
}

/// Decides from the configuration and the magic level whether the rescue
/// spell is used, and if so, how often it succeeds, in 84ths.
pub(crate) fn rescue_84ths(herb_cfg: &FarmingHerbsConfig, magic_level: Option<usize>) -> (r: Result<
    Option<u128>,
    FarmError,
>)
    ensures
        match rescue_plan(herb_cfg, magic_level) {
            Ok(rescue) => r is Ok && in_84ths(r->Ok_0) == rescue,
            Err(e) => r is Err && r->Err_0 == e,
        },
        r matches Ok(Some(n)) ==> 42 <= n <= 63,
{
    if !herb_cfg.resurrect_crops {
        Ok(None)
    } else {
        match magic_level {
            None => Err(FarmError::MagicLevelMissing),
            Some(level) => {
                if level < RESURRECT_CROPS_LEVEL {
                    Err(
                        FarmError::MagicLevelTooLow {
                            required: RESURRECT_CROPS_LEVEL,
                            actual: level,
                        },
                    )
                } else {
                    let capped: usize = if level > MAX_LEVEL {
                        MAX_LEVEL
                    } else {
                        level
                    };
                    proof {
                        lemma_resurrect_success_in_84ths(level as int);
                    }
                    Ok(Some((capped - 36) as u128))
                }
            },
        }
    }
}

/// Counts the survival chance over `SURVIVAL_DENOM`.
fn survival_count(d: u128, rescue: Option<u128>) -> (alive: u128)
    requires
        d <= 128,
        rescue matches Some(n) ==> n <= 84,
    ensures
        alive == survival_numer(d as int, rescue),
        alive <= SURVIVAL_DENOM,
        alive as real / (SURVIVAL_DENOM as real) == survival(d as real / 128real, in_84ths(rescue)),
{
    proof {
        lemma_survival_numer(d as int, rescue);
    }
    let s: u128 = 128 - d;
    assert(s * s <= 16384 && s * s * s <= 2097152) by (nonlinear_arith)
        requires
            0 <= s <= 128,
    ;
    match rescue {
        None => 84 * (s * s * s),
        Some(n) => {
            assert(3 * (s * s) * d <= 3 * 16384 * 128 && 3 * (s * s) * d * n <= 3 * 16384 * 128
                * 84) by (nonlinear_arith)
                requires
                    0 <= s * s <= 16384,
                    0 <= d <= 128,
                    0 <= n <= 84,
            ;
            84 * (s * s * s) + 3 * (s * s) * d * n
        },
    }
}

/// Counts the chance of a cast over `CUBE_128`.
fn cast_count(d: u128, rescue: Option<u128>) -> (cast: u128)
    requires
        d <= 128,
    ensures
        cast == cast_numer(d as int, rescue),
        cast <= CUBE_128,
        cast as real / (CUBE_128 as real) == cast_chance(d as real / 128real, in_84ths(rescue)),
{
    proof {
        lemma_cast_numer(d as int, rescue);
    }
    let s: u128 = 128 - d;
    assert(s * s <= 16384 && s * s * s <= 2097152) by (nonlinear_arith)
        requires
            0 <= s <= 128,
    ;
    match rescue {
        None => 0,
        Some(_) => CUBE_128 - s * s * s,
    }
}

/// What a patch, or a whole run, is expected to give.
#[derive(Copy, Clone, Debug)]
pub struct PatchStats {
    /// The chance that the herb lives to be harvested. For a run, the
    /// average over its patches.
    pub survival_chance: Ratio,
    /// The chance that Resurrect Crops is cast, whether it succeeds or not;
    /// nothing when the spell is not in use.
    pub resurrect_cast_chance: Ratio,
    /// The expected number of leaves, with the chance of dying counted in.
    pub expected_yield: Ratio,
    /// The expected experience from compost, planting and harvesting.
    pub expected_xp: Ratio,
    /// The price of the seed, if it has one.
    pub seed_price: Option<usize>,
    /// The price of the harvested herb, if it has one.
    pub grimy_herb_price: Option<usize>,
    /// The expected profit in coins, which may be a loss.
    pub expected_profit: i128,
}

/// The prices and the profit of one patch.
pub struct PriceStats {
    pub seed_price: Option<usize>,
    pub grimy_herb_price: Option<usize>,
    pub expected_profit: i128,
}

impl PatchStats {
    /// Whether these are the figures of `patch` when `herb` is grown there:
    /// every chance and expectation is exactly what the model defines, and
    /// the prices are those of the price table.
    pub open spec fn is_stats_of(
        self,
        patch: HerbPatch,
        herb_cfg: &FarmingHerbsConfig,
        farming_level: int,
        herb: Herb,
        rescue: Option<real>,
        prices: Map<usize, ItemPrice>,
    ) -> bool {
        &&& self.survival_chance@ == survival(patch.disease_chance(herb_cfg), rescue)
        &&& self.resurrect_cast_chance@ == cast_chance(patch.disease_chance(herb_cfg), rescue)
        &&& self.expected_yield@ == patch.observed_yield(herb_cfg, farming_level, herb, rescue)
        &&& self.expected_xp@ == patch.observed_xp(herb_cfg, farming_level, herb, rescue)
        &&& self.seed_price == avg_price(prices, herb.seed_item_id())
        &&& self.grimy_herb_price == avg_price(prices, herb.grimy_herb_item_id())
        &&& self.expected_profit == patch.profit(herb_cfg, farming_level, herb, rescue, prices)
    }
}

/// The most that a patch can be expected to yield: each of at most six
/// harvest lives is used up by a pick with a chance of at least one 256th.
pub const MAX_YIELD: u128 = 1536;

/// The prices of seed and herb and the expected profit of one patch, from
/// its expected yield counted as `yield_num / yield_den` and the chance of a
/// cast counted over `CUBE_128`.
fn calc_price_stats(
    herb_cfg: &FarmingHerbsConfig,
    yield_num: u128,
    yield_den: u128,
    cast: u128,
    herb: Herb,
    client: &WikiItemClient,
) -> (stats: PriceStats)
    requires
        yield_den > 0,
        yield_num <= MAX_YIELD * yield_den,
        yield_num <= 0xffff_ffff_ffff,
        cast <= CUBE_128,
    ensures
        stats.seed_price == avg_price(client.prices@, herb.seed_item_id()),
        stats.grimy_herb_price == avg_price(client.prices@, herb.grimy_herb_item_id()),
        stats.expected_profit == expected_profit(
            stats.grimy_herb_price,
            stats.seed_price,
            compost_price(herb_cfg, client.prices@),
            runes_cost(Spell::ResurrectCrops.spec_runes(), client.prices@),
            yield_num as real / yield_den as real,
            cast as real / (CUBE_128 as real),
        ),
        -55 * usize::MAX <= stats.expected_profit <= 1536 * usize::MAX,
{
    let grimy_herb_price = client.get_avg_price(herb.grimy_herb_item_id());
    let seed_price = client.get_avg_price(herb.seed_item_id());
    let compost: usize = HerbPatch::calc_compost_price(herb_cfg, client);
    let runes: u128 = Spell::ResurrectCrops.rune_cost(client);
    let herb_coins: u128 = match grimy_herb_price {
        Some(p) => p as u128,
        None => 0,
    };
    let seed_coins: u128 = match seed_price {
        Some(p) => p as u128,
        None => 0,
    };
    proof {
        lemma_floor_of_scaled(herb_coins as int, yield_num as int, yield_den as int);
        lemma_floor_of_scaled(runes as int, cast as int, CUBE_128 as int);
        assert(herb_coins * yield_num <= 0xffff_ffff_ffff_ffff * 0xffff_ffff_ffff
            && herb_coins * yield_num <= (MAX_YIELD * herb_coins) * yield_den) by (nonlinear_arith)
            requires
                herb_coins <= 0xffff_ffff_ffff_ffff,
                yield_num <= 0xffff_ffff_ffff,
                yield_num <= MAX_YIELD * yield_den,
        ;
        assert(runes * cast <= (53 * 0xffff_ffff_ffff_ffff) * 2097152 && runes * cast <= runes
            * 2097152) by (nonlinear_arith)
            requires
                runes <= 53 * 0xffff_ffff_ffff_ffff,
                cast <= 2097152,
        ;
        vstd::arithmetic::div_mod::lemma_div_is_ordered(
            (herb_coins * yield_num) as int,
            ((MAX_YIELD * herb_coins) * yield_den) as int,
            yield_den as int,
        );
        vstd::arithmetic::div_mod::lemma_div_multiples_vanish(
            (MAX_YIELD * herb_coins) as int,
            yield_den as int,
        );
    }
    let revenue: u128 = herb_coins * yield_num / yield_den;
    let rune_coins: u128 = runes * cast / CUBE_128;
    let cost: u128 = seed_coins + compost as u128 + rune_coins;
    PriceStats {
        seed_price,
        grimy_herb_price,
        expected_profit: revenue as i128 - cost as i128,
    }
}

/// Counts in 256ths the chance that picking a leaf does not use up a
/// harvest life, at a patch whose own bonus and the Attas plant's add up to
/// `patch_percent`.
pub(crate) fn save_count(
    herb_cfg: &FarmingHerbsConfig,
    farming_level: usize,
    herb: Herb,
    patch_percent: u128,
) -> (c: u128)
    requires
        1 <= farming_level,
        patch_percent <= 20,
    ensures
        c == save_chance_numer(
            herb.chance_to_save(),
            farming_level as int,
            herb_cfg.item_bonus_percent() as real / 100real,
            patch_percent as real / 100real,
        ),
        1 <= c,
        farming_level <= 99 ==> c <= 111,
{
    let ends = herb.chance_to_save();
    let ip: u128 = herb_cfg.item_percent();
    let pp: u128 = patch_percent;
    proof {
        lemma_save_chance_numer(ends, farming_level as int, ip as int, pp as int);
        if farming_level <= 99 {
            lemma_save_count_bound(ends, farming_level as int, ip as int, pp as int);
        }
    }
    let level: u128 = farming_level as u128;
    let (low, high) = (ends.0 as u128, ends.1 as u128);
    assert((high - low) * (level - 1) <= 80 * 0xffff_ffff_ffff_ffff) by (nonlinear_arith)
        requires
            high - low <= 80,
            0 <= level - 1 <= 0xffff_ffff_ffff_ffff,
    ;
    let on_curve: u128 = (low * 98 + (high - low) * (level - 1)) / 98;
    assert(on_curve * (100 + ip) <= 0xffff_ffff_ffff_ffff * 115) by (nonlinear_arith)
        requires
            on_curve <= 0xffff_ffff_ffff_ffff,
            ip <= 15,
    ;
    let with_items: u128 = on_curve * (100 + ip) / 100;
    assert(with_items * (100 + pp) <= (0xffff_ffff_ffff_ffff * 2) * 120) by (nonlinear_arith)
        requires
            with_items <= 0xffff_ffff_ffff_ffff * 2,
            pp <= 20,
    ;
    with_items * (100 + pp) / 100 + 1
}

/// The figures of one patch as whole numbers: the survival chance counted
/// over `SURVIVAL_DENOM`, the chance of a cast over `CUBE_128`, the yield
/// over `spare * SURVIVAL_DENOM` and the experience over twice that, where
/// `spare` counts in 256ths the chance that a pick does use up a harvest
/// life.
pub(crate) struct PatchCounts {
    pub alive: u128,
    pub cast: u128,
    pub spare: u128,
    pub yield_num: u128,
    pub xp_num: u128,
    pub prices: PriceStats,
}

/// The most that the experience of a patch can count over twice the
/// denominator of its yield.
pub const MAX_XP_COUNT: u128 = 142649528942592;

/// The most that the yield of a patch can count.
pub const MAX_YIELD_COUNT: u128 = 270582939648;

impl PatchCounts {
    /// Whether these are the counts of `patch` when `herb` is grown there.
    pub(crate) open spec fn counts(
        self,
        patch: HerbPatch,
        herb_cfg: &FarmingHerbsConfig,
        farming_level: int,
        herb: Herb,
        rescue: Option<real>,
        prices: Map<usize, ItemPrice>,
    ) -> bool {
        &&& self.alive <= SURVIVAL_DENOM
        &&& self.alive as real / (SURVIVAL_DENOM as real) == survival(
            patch.disease_chance(herb_cfg),
            rescue,
        )
        &&& self.cast <= CUBE_128
        &&& self.cast as real / (CUBE_128 as real) == cast_chance(
            patch.disease_chance(herb_cfg),
            rescue,
        )
        &&& self.spare == 256 - patch.save_numer(herb_cfg, farming_level, herb)
        &&& 1 <= self.spare <= 255
        &&& self.yield_num <= MAX_YIELD_COUNT
        &&& self.yield_num as real / (self.spare * SURVIVAL_DENOM) as real == patch.observed_yield(
            herb_cfg,
            farming_level,
            herb,
            rescue,
        )
        &&& self.xp_num <= MAX_XP_COUNT
        &&& self.xp_num as real / (2 * (self.spare * SURVIVAL_DENOM)) as real == patch.observed_xp(
            herb_cfg,
            farming_level,
            herb,
            rescue,
        )
        &&& self.prices.seed_price == avg_price(prices, herb.seed_item_id())
        &&& self.prices.grimy_herb_price == avg_price(prices, herb.grimy_herb_item_id())
        &&& self.prices.expected_profit == patch.profit(
            herb_cfg,
            farming_level,
            herb,
            rescue,
            prices,
        )
        &&& -55 * usize::MAX <= self.prices.expected_profit <= 1536 * usize::MAX
    }
}

/// A herb patch.
#[derive(Copy, Clone, Debug, PartialEq, Eq)]
pub enum HerbPatch {
    Ardougne,
    Catherby,
    Falador,
    FarmingGuild,
    HarmonyIsland,
    Hosidius,
    PortPhasmatys,
    TrollStronghold,
    Weiss,
}

impl FarmingHerbsConfig {
    /// How many leaves can be lost before a patch is used up. Each tier of
    /// compost adds one to the three of a bare patch.
    pub open spec fn spec_harvest_lives(&self) -> u32 {
        match self.compost {
            None => 3,
            Some(Compost::Normal) => 4,
            Some(Compost::Supercompost) => 5,
            Some(Compost::Ultracompost) => 6,
        }
    }

    /// How many leaves can be lost before a patch is used up.
    #[verifier::when_used_as_spec(spec_harvest_lives)]
    pub fn harvest_lives(&self) -> (lives: u32)
        ensures
            lives == self.spec_harvest_lives(),
    {
        match self.compost {
            None => 3,
            Some(Compost::Normal) => 4,
            Some(Compost::Supercompost) => 5,
            Some(Compost::Ultracompost) => 6,
        }
    }

    /// The experience for spreading one bucket of the configured compost,
    /// which is nothing without compost.
    pub open spec fn spec_compost_xp(&self) -> nat {
        match self.compost {
            None => 0,
            Some(Compost::Normal) => 18,
            Some(Compost::Supercompost) => 26,
            Some(Compost::Ultracompost) => 36,
        }
    }

    fn compost_xp_whole(&self) -> (xp: u128)
        ensures
            xp == self.spec_compost_xp(),
    {
        match self.compost {
            None => 0,
            Some(Compost::Normal) => 18,
            Some(Compost::Supercompost) => 26,
            Some(Compost::Ultracompost) => 36,
        }
    }

    /// The experience for spreading one bucket of the configured compost.
    pub fn compost_xp(&self) -> (xp: Ratio)
        ensures
            xp@ == self.spec_compost_xp() as real,
    {
        Ratio::from_int(self.compost_xp_whole())
    }

    /// The yield bonus from equipped items, in percent: 10 for magic
    /// secateurs and 5 for a farming cape, which add up.
    pub open spec fn item_bonus_percent(&self) -> nat {
        (if self.magic_secateurs {
            10nat
        } else {
            0nat
        }) + (if self.farming_cape {
            5nat
        } else {
            0nat
        })
    }

    /// The yield bonus from equipped items.
    pub open spec fn item_bonus(&self) -> real {
        self.item_bonus_percent() as real / 100real
    }

    /// The yield bonus from a living Attas plant, in percent.
    pub open spec fn attas_bonus_percent(&self) -> nat {
        match self.anima_plant {
            Some(AnimaPlant::Attas) => 5,
            _ => 0,
        }
    }

    /// The yield bonus from a living Attas plant.
    pub open spec fn attas_bonus(&self) -> real {
        self.attas_bonus_percent() as real / 100real
    }

    fn item_percent(&self) -> (percent: u128)
        ensures
            percent == self.item_bonus_percent(),
    {
        let mut percent: u128 = 0;
        if self.magic_secateurs {
            percent = percent + 10;
        }
        if self.farming_cape {
            percent = percent + 5;
        }
        percent
    }

    pub(crate) fn attas_percent(&self) -> (percent: u128)
        ensures
            percent == self.attas_bonus_percent(),
    {
        match self.anima_plant {
            Some(AnimaPlant::Attas) => 5,
            _ => 0,
        }
    }

    /// The yield bonus from equipped items alone.
    pub fn calc_item_chance_to_save(&self) -> (bonus: Ratio)
        ensures
            bonus@ == self.item_bonus(),
    {
        Ratio::from_parts(self.item_percent(), 100)
    }
}

impl HerbPatch {
    /// Whether a herb in this patch can never catch a disease: always at the
    /// Troll Stronghold and at Weiss, and at Hosidius once the player has
    /// enough favour there.
    pub open spec fn spec_disease_free(self, herb_cfg: &FarmingHerbsConfig) -> bool {
        match self {
            HerbPatch::TrollStronghold | HerbPatch::Weiss => true,
            HerbPatch::Hosidius => herb_cfg.hosidius_fifty_favor,
            _ => false,
        }
    }

    /// Whether a herb in this patch can never catch a disease.
    #[verifier::when_used_as_spec(spec_disease_free)]
    pub fn disease_free(self, herb_cfg: &FarmingHerbsConfig) -> (free: bool)
        ensures
            free == self.spec_disease_free(herb_cfg),
    {
        match self {
            HerbPatch::TrollStronghold | HerbPatch::Weiss => true,
            HerbPatch::Hosidius => herb_cfg.hosidius_fifty_favor,
            _ => false,
        }
    }

    /// The yield bonus that the patch itself gives, in percent. At Catherby
    /// it grows with the Kandarin diary: 5 for medium, 10 for hard, 15 for
    /// elite. At the Farming Guild and at Hosidius it is 5 once the hard
    /// Kourend & Kebos diary is done. Everywhere else it is nothing.
    pub open spec fn yield_bonus_percent(self, herb_cfg: &FarmingHerbsConfig) -> nat {
        match self {
            HerbPatch::Catherby => match herb_cfg.kandarin_diary {
                Some(AchievementDiaryLevel::Medium) => 5,
                Some(AchievementDiaryLevel::Hard) => 10,
                Some(AchievementDiaryLevel::Elite) => 15,
                _ => 0,
            },
            HerbPatch::FarmingGuild | HerbPatch::Hosidius => if diary_reached(
                herb_cfg.kourend_diary,
                AchievementDiaryLevel::Hard,
            ) {
                5
            } else {
                0
            },
            _ => 0,
        }
    }

    /// The yield bonus that the patch itself gives.
    pub open spec fn yield_bonus(self, herb_cfg: &FarmingHerbsConfig) -> real {
        self.yield_bonus_percent(herb_cfg) as real / 100real
    }

    /// The experience bonus that the patch gives, in percent: 10 at Falador
    /// once the medium Falador diary is done, nothing everywhere else.
    pub open spec fn xp_bonus_percent(self, herb_cfg: &FarmingHerbsConfig) -> nat {
        match self {
            HerbPatch::Falador => if diary_reached(
                herb_cfg.falador_diary,
                AchievementDiaryLevel::Medium,
            ) {
                10
            } else {
                0
            },
            _ => 0,
        }
    }

    pub(crate) fn yield_percent(self, herb_cfg: &FarmingHerbsConfig) -> (percent: u128)
        ensures
            percent == self.yield_bonus_percent(herb_cfg),
    {
        match self {
            HerbPatch::Catherby => match herb_cfg.kandarin_diary {
                Some(AchievementDiaryLevel::Medium) => 5,
                Some(AchievementDiaryLevel::Hard) => 10,
                Some(AchievementDiaryLevel::Elite) => 15,
                _ => 0,
            },
            HerbPatch::FarmingGuild | HerbPatch::Hosidius => match herb_cfg.kourend_diary {
                Some(diary) => if diary.at_least(AchievementDiaryLevel::Hard) {
                    5
                } else {
                    0
                },
                None => 0,
            },
            _ => 0,
        }
    }

    pub(crate) fn xp_percent(self, herb_cfg: &FarmingHerbsConfig) -> (percent: u128)
        ensures
            percent == self.xp_bonus_percent(herb_cfg),
    {
        match self {
            HerbPatch::Falador => match herb_cfg.falador_diary {
                Some(diary) => if diary.at_least(AchievementDiaryLevel::Medium) {
                    10
                } else {
                    0
                },
                None => 0,
            },
            _ => 0,
        }
    }

    /// The chance in 128ths that a herb in this patch catches a disease in
    /// one growth cycle. It is nothing in a patch that is free of disease.
    /// Elsewhere it is the chance that the compost leaves, cut to a fifth
    /// while an Iasor plant lives, rounded down to whole 128ths, and never
    /// less than one of them.
    pub open spec fn disease_numer(self, herb_cfg: &FarmingHerbsConfig) -> int {
        if self.disease_free(herb_cfg) {
            0
        } else {
            let base = compost_disease_numer(herb_cfg.compost) as real;
            let lowered = match herb_cfg.anima_plant {
                Some(AnimaPlant::Iasor) => base * (1real / 5real),
                _ => base,
            };
            if lowered.floor() < 1 {
                1
            } else {
                lowered.floor()
            }
        }
    }

    /// The chance that a herb in this patch catches a disease in one growth
    /// cycle.
    pub open spec fn disease_chance(self, herb_cfg: &FarmingHerbsConfig) -> real {
        self.disease_numer(herb_cfg) as real / 128real
    }

    fn disease_128ths(self, herb_cfg: &FarmingHerbsConfig) -> (d: u128)
        ensures
            d == self.disease_numer(herb_cfg),
            d <= 27,
    {
        if self.disease_free(herb_cfg) {
            0
        } else {
            let base: u128 = match herb_cfg.compost {
                None => 27,
                Some(Compost::Normal) => 14,
                Some(Compost::Supercompost) => 6,
                Some(Compost::Ultracompost) => 3,
            };
            let lowered: u128 = match herb_cfg.anima_plant {
                Some(AnimaPlant::Iasor) => base / 5,
                _ => base,
            };
            proof {
                let b = base as real;
                lemma_floor_of_quotient(base as int, 5);
                assert(b * (1real / 5real) == b / 5real) by (nonlinear_arith);
                lemma_floor_of_quotient(base as int, 1);
                assert(b / 1real == b) by (nonlinear_arith);
            }
            if lowered < 1 {
                1
            } else {
                lowered
            }
        }
    }

    /// The chance that a herb in this patch lives to be harvested, and the
    /// chance that Resurrect Crops is cast on it along the way.
    ///
    /// With the spell in use, one disease can be undone. The magic level
    /// decides how often that works, so it must be given and must be high
    /// enough to cast the spell at all.
    pub fn calc_survival_chance(
        self,
        magic_level: Option<usize>,
        herb_cfg: &FarmingHerbsConfig,
    ) -> (r: Result<(Ratio, Ratio), FarmError>)
        ensures
            match rescue_plan(herb_cfg, magic_level) {
                Ok(rescue) => r is Ok && r->Ok_0.0@ == survival(
                    self.disease_chance(herb_cfg),
                    rescue,
                ) && r->Ok_0.1@ == cast_chance(self.disease_chance(herb_cfg), rescue),
                Err(e) => r is Err && r->Err_0 == e,
            },
    {
        let rescue = rescue_84ths(herb_cfg, magic_level)?;
        let d: u128 = self.disease_128ths(herb_cfg);
        let alive: u128 = survival_count(d, rescue);
        let cast: u128 = cast_count(d, rescue);
        Ok((Ratio::from_parts(alive, SURVIVAL_DENOM), Ratio::from_parts(cast, CUBE_128)))
    }

    /// The whole yield bonus at the patch apart from equipped items: what
    /// the patch itself gives and what a living Attas plant gives.
    pub open spec fn patch_bonus(self, herb_cfg: &FarmingHerbsConfig) -> real {
        self.yield_bonus(herb_cfg) + herb_cfg.attas_bonus()
    }

    /// The chance in 256ths that picking a leaf of `herb` at this patch does
    /// not use up a harvest life.
    pub open spec fn save_numer(
        self,
        herb_cfg: &FarmingHerbsConfig,
        farming_level: int,
        herb: Herb,
    ) -> int {
        save_chance_numer(
            herb.chance_to_save(),
            farming_level,
            herb_cfg.item_bonus(),
            self.patch_bonus(herb_cfg),
        )
    }

    /// The chance that picking a leaf of `herb` at this patch does not use
    /// up a harvest life.
    pub open spec fn save_chance(
        self,
        herb_cfg: &FarmingHerbsConfig,
        farming_level: int,
        herb: Herb,
    ) -> real {
        self.save_numer(herb_cfg, farming_level, herb) as real / 256real
    }

    /// The expected number of leaves from this patch once the herb has
    /// lived to be harvested.
    pub open spec fn mature_yield(
        self,
        herb_cfg: &FarmingHerbsConfig,
        farming_level: int,
        herb: Herb,
    ) -> real {
        yield_when_mature(
            herb_cfg.harvest_lives() as int,
            self.save_chance(herb_cfg, farming_level, herb),
        )
    }

    /// The chance to save a harvest life at this patch, worked out in whole
    /// numbers. It is at least one 256th, and up to farming level 99 at
    /// most 111 of them.
    pub proof fn lemma_save_numer_bounds(
        self,
        herb_cfg: &FarmingHerbsConfig,
        farming_level: int,
        herb: Herb,
    )
        requires
            1 <= farming_level,
        ensures
            1 <= self.save_numer(herb_cfg, farming_level, herb),
            farming_level <= 99 ==> self.save_numer(herb_cfg, farming_level, herb) <= 111,
            self.save_numer(herb_cfg, farming_level, herb) == save_chance_numer(
                herb.chance_to_save(),
                farming_level,
                herb_cfg.item_bonus_percent() as real / 100real,
                (self.yield_bonus_percent(herb_cfg) + herb_cfg.attas_bonus_percent()) as real
                    / 100real,
            ),
            self.save_numer(herb_cfg, farming_level, herb) == save_count_of(
                herb.chance_to_save(),
                farming_level,
                herb_cfg.item_bonus_percent() as int,
                (self.yield_bonus_percent(herb_cfg) + herb_cfg.attas_bonus_percent()) as int,
            ),
    {
        let yp = self.yield_bonus_percent(herb_cfg) as real;
        let ap = herb_cfg.attas_bonus_percent() as real;
        assert(yp / 100real + ap / 100real == (yp + ap) / 100real) by (nonlinear_arith);
        let ip = herb_cfg.item_bonus_percent() as int;
        let pp = (self.yield_bonus_percent(herb_cfg) + herb_cfg.attas_bonus_percent()) as int;
        lemma_save_chance_numer(herb.chance_to_save(), farming_level, ip, pp);
        if farming_level <= 99 {
            lemma_save_count_bound(herb.chance_to_save(), farming_level, ip, pp);
        }
    }

    /// Whether picking a leaf of `herb` at this patch uses up a harvest life
    /// with some chance at least, so that the harvest comes to an end. That
    /// is so at every farming level up to 99, and for some way beyond.
    pub open spec fn harvest_ends(
        self,
        herb_cfg: &FarmingHerbsConfig,
        farming_level: int,
        herb: Herb,
    ) -> bool {
        self.save_numer(herb_cfg, farming_level, herb) < 256
    }

    /// Tells whether picking a leaf of `herb` at this patch uses up a
    /// harvest life with some chance at least.
    pub fn is_harvest_ending(
        self,
        herb_cfg: &FarmingHerbsConfig,
        farming_level: usize,
        herb: Herb,
    ) -> (ends: bool)
        requires
            1 <= farming_level,
        ensures
            ends == self.harvest_ends(herb_cfg, farming_level as int, herb),
            farming_level <= 99 ==> ends,
    {
        self.save_256ths(herb_cfg, farming_level, herb) < 256
    }

    pub(crate) fn save_256ths(
        self,
        herb_cfg: &FarmingHerbsConfig,
        farming_level: usize,
        herb: Herb,
    ) -> (c: u128)
        requires
            1 <= farming_level,
        ensures
            c == self.save_numer(herb_cfg, farming_level as int, herb),
            1 <= c,
            farming_level <= 99 ==> c <= 111,
    {
        proof {
            self.lemma_save_numer_bounds(herb_cfg, farming_level as int, herb);
        }
        save_count(
            herb_cfg,
            farming_level,
            herb,
            self.yield_percent(herb_cfg) + herb_cfg.attas_percent(),
        )
    }

    /// The chance that picking a leaf does not use up a harvest life, from
    /// the herb, the farming level and every yield bonus that applies.
    pub fn calc_chance_to_save(
        self,
        herb_cfg: &FarmingHerbsConfig,
        farming_level: usize,
        herb: Herb,
    ) -> (chance: Ratio)
        requires
            1 <= farming_level,
        ensures
            chance@ == self.save_chance(herb_cfg, farming_level as int, herb),
    {
        Ratio::from_parts(self.save_256ths(herb_cfg, farming_level, herb), 256)
    }

    /// The expected yield of this patch once it is fully grown. The chance
    /// that the herb dies before that is not counted in.
    ///
    /// The harvest must come to an end, which `is_harvest_ending` tells.
    pub fn calc_expected_yield(
        self,
        herb_cfg: &FarmingHerbsConfig,
        farming_level: usize,
        herb: Herb,
    ) -> (leaves: Ratio)
        requires
            1 <= farming_level,
            self.harvest_ends(herb_cfg, farming_level as int, herb),
        ensures
            leaves@ == self.mature_yield(herb_cfg, farming_level as int, herb),
    {
        let c: u128 = self.save_256ths(herb_cfg, farming_level, herb);
        let lives: u128 = herb_cfg.harvest_lives() as u128;
        proof {
            lemma_yield_when_mature(lives as int, c as int);
        }
        Ratio::from_parts(lives * 256, 256 - c)
    }

    /// The expected number of leaves from this patch, with the chance that
    /// the herb dies before the harvest counted in.
    pub open spec fn observed_yield(
        self,
        herb_cfg: &FarmingHerbsConfig,
        farming_level: int,
        herb: Herb,
        rescue: Option<real>,
    ) -> real {
        self.mature_yield(herb_cfg, farming_level, herb) * survival(
            self.disease_chance(herb_cfg),
            rescue,
        )
    }

    /// The expected experience from this patch: for spreading the compost,
    /// which is certain; for planting, which counts only if the herb lives;
    /// and for every leaf that is expected to be picked.
    pub open spec fn observed_xp(
        self,
        herb_cfg: &FarmingHerbsConfig,
        farming_level: int,
        herb: Herb,
        rescue: Option<real>,
    ) -> real {
        herb_cfg.spec_compost_xp() as real + herb.plant_xp() * survival(
            self.disease_chance(herb_cfg),
            rescue,
        ) + herb.harvest_xp() * self.observed_yield(herb_cfg, farming_level, herb, rescue)
    }

    /// The expected profit of this patch at the prices of a price table.
    pub open spec fn profit(
        self,
        herb_cfg: &FarmingHerbsConfig,
        farming_level: int,
        herb: Herb,
        rescue: Option<real>,
        prices: Map<usize, ItemPrice>,
    ) -> int {
        expected_profit(
            avg_price(prices, herb.grimy_herb_item_id()),
            avg_price(prices, herb.seed_item_id()),
            compost_price(herb_cfg, prices),
            runes_cost(Spell::ResurrectCrops.spec_runes(), prices),
            self.observed_yield(herb_cfg, farming_level, herb, rescue),
            cast_chance(self.disease_chance(herb_cfg), rescue),
        )
    }

    /// The price of the compost for one patch, which a bottomless bucket
    /// halves. Compost without a recent trade counts as free.
    pub fn calc_compost_price(herb_cfg: &FarmingHerbsConfig, client: &WikiItemClient) -> (price:
        usize)
        ensures
            price == compost_price(herb_cfg, client.prices@),
    {
        let bucket: usize = match herb_cfg.compost {
            None => 0,
            Some(compost) => match client.get_avg_price(compost.item_id()) {
                Some(p) => p,
                None => 0,
            },
        };
        if herb_cfg.bottomless_bucket {
            bucket / 2
        } else {
            bucket
        }
    }

    /// What growing `herb` in this patch is expected to give. The yield
    /// and the experience have the chance of dying counted in.
    ///
    /// With Resurrect Crops in use the magic level must be given and must
    /// be high enough to cast the spell. The harvest must come to an end,
    /// which `is_harvest_ending` tells.
    pub fn calc_patch_stats(
        self,
        farming_level: usize,
        magic_level: Option<usize>,
        herb_cfg: &FarmingHerbsConfig,
        herb: Herb,
        client: &WikiItemClient,
    ) -> (r: Result<PatchStats, FarmError>)
        requires
            1 <= farming_level,
            self.harvest_ends(herb_cfg, farming_level as int, herb),
        ensures
            match rescue_plan(herb_cfg, magic_level) {
                Ok(rescue) => r is Ok && r->Ok_0.is_stats_of(
                    self,
                    herb_cfg,
                    farming_level as int,
                    herb,
                    rescue,
                    client.prices@,
                ),
                Err(e) => r is Err && r->Err_0 == e,
            },
    {
        let rescue = rescue_84ths(herb_cfg, magic_level)?;
        let counts = self.count_patch(farming_level, rescue, herb_cfg, herb, client);
        Ok(
            PatchStats {
                survival_chance: Ratio::from_parts(counts.alive, SURVIVAL_DENOM),
                resurrect_cast_chance: Ratio::from_parts(counts.cast, CUBE_128),
                expected_yield: Ratio::from_parts(counts.yield_num, counts.spare * SURVIVAL_DENOM),
                expected_xp: Ratio::from_parts(counts.xp_num, 2 * (counts.spare * SURVIVAL_DENOM)),
                seed_price: counts.prices.seed_price,
                grimy_herb_price: counts.prices.grimy_herb_price,
                expected_profit: counts.prices.expected_profit,
            },
        )
    }

    /// Works out the figures of this patch as whole numbers over fixed
    /// denominators, from the rescue chance in 84ths.
    pub(crate) fn count_patch(
        self,
        farming_level: usize,
        rescue: Option<u128>,
        herb_cfg: &FarmingHerbsConfig,
        herb: Herb,
        client: &WikiItemClient,
    ) -> (counts: PatchCounts)
        requires
            1 <= farming_level,
            self.harvest_ends(herb_cfg, farming_level as int, herb),
            rescue matches Some(n) ==> n <= 84,
        ensures
            counts.counts(
                self,
                herb_cfg,
                farming_level as int,
                herb,
                in_84ths(rescue),
                client.prices@,
            ),
    {
        let d: u128 = self.disease_128ths(herb_cfg);
        let alive: u128 = survival_count(d, rescue);
        let cast: u128 = cast_count(d, rescue);
        let c: u128 = self.save_256ths(herb_cfg, farming_level, herb);
        let lives: u128 = herb_cfg.harvest_lives() as u128;
        let compost_xp: u128 = herb_cfg.compost_xp_whole();
        let plant2: u128 = herb.plant_xp_doubled();
        let harvest2: u128 = herb.harvest_xp_doubled();
        let q: u128 = 256 - c;
        proof {
            lemma_yield_counts(lives as int, c as int, alive as int);
            lemma_xp_counts(
                lives as int,
                c as int,
                alive as int,
                compost_xp as int,
                plant2 as int,
                harvest2 as int,
            );
            assert(lives * 256 * alive <= 1536 * 176160768 && q * SURVIVAL_DENOM <= 255 * 176160768
                && lives * 256 * alive <= MAX_YIELD * (q * SURVIVAL_DENOM)) by (nonlinear_arith)
                requires
                    lives <= 6,
                    alive <= 176160768,
                    1 <= q <= 255,
                    SURVIVAL_DENOM == 176160768,
                    MAX_YIELD == 1536,
            ;
        }
        let yield_num: u128 = lives * 256 * alive;
        let yield_den: u128 = q * SURVIVAL_DENOM;
        assert(compost_xp * 2 * yield_den <= 72 * (255 * 176160768) && plant2 * alive * q <= 399
            * 176160768 * 255 && harvest2 * yield_num <= 449 * (1536 * 176160768))
            by (nonlinear_arith)
            requires
                compost_xp <= 36,
                plant2 <= 399,
                harvest2 <= 449,
                alive <= 176160768,
                q <= 255,
                yield_den <= 255 * 176160768,
                yield_num <= 1536 * 176160768,
        ;
        let xp_num: u128 = compost_xp * 2 * yield_den + plant2 * alive * q + harvest2 * yield_num;
        let prices = calc_price_stats(herb_cfg, yield_num, yield_den, cast, herb, client);
        PatchCounts { alive, cast, spare: q, yield_num, xp_num, prices }
    }

    /// The yield bonus that the patch itself gives, which stacks with the
    /// bonuses of items and of the Attas plant.
    pub fn chance_to_save_bonus(self, herb_cfg: &FarmingHerbsConfig) -> (bonus: Ratio)
        ensures
            bonus@ == self.yield_bonus(herb_cfg),
    {
        Ratio::from_parts(self.yield_percent(herb_cfg), 100)
    }

    /// The experience bonus that the patch gives on everything done there.
    pub fn xp_bonus(self, herb_cfg: &FarmingHerbsConfig) -> (bonus: Ratio)
        ensures
            bonus@ == self.xp_bonus_percent(herb_cfg) as real / 100real,
    {
        Ratio::from_parts(self.xp_percent(herb_cfg), 100)
    }
}

} // verus!
