//! A whole run: every configured patch planted with the same herb.

use crate::config::FarmingHerbsConfig;
use crate::error::FarmError;
use crate::farm::{rescue_84ths, save_count, Herb, HerbPatch, PatchStats};
use crate::item::{avg_price, ItemPrice, WikiItemClient};
use crate::model::{cast_chance, in_84ths, rescue_plan, survival, CUBE_128, SURVIVAL_DENOM};
use crate::ratio::Ratio;
use crate::reals::{lemma_add_counts, lemma_average_count, lemma_scaled_quotient};
use vstd::prelude::*;

verus! {

/// The survival chances of the patches, added up.
pub open spec fn sum_survival(
    patches: Seq<HerbPatch>,
    herb_cfg: &FarmingHerbsConfig,
    rescue: Option<real>,
) -> real
    decreases patches.len(),
{
    if patches.len() == 0 {
        0real
    } else {
        sum_survival(patches.drop_last(), herb_cfg, rescue) + survival(
            patches.last().disease_chance(herb_cfg),
            rescue,
        )
    }
}

/// The chances of a cast at each patch, added up: the expected number of
/// casts in a run.
pub open spec fn sum_cast(
    patches: Seq<HerbPatch>,
    herb_cfg: &FarmingHerbsConfig,
    rescue: Option<real>,
) -> real
    decreases patches.len(),
{
    if patches.len() == 0 {
        0real
    } else {
        sum_cast(patches.drop_last(), herb_cfg, rescue) + cast_chance(
            patches.last().disease_chance(herb_cfg),
            rescue,
        )
    }
}

/// The expected yields of the patches, added up.
pub open spec fn sum_yield(
    patches: Seq<HerbPatch>,
    herb_cfg: &FarmingHerbsConfig,
    farming_level: int,
    herb: Herb,
    rescue: Option<real>,
) -> real
    decreases patches.len(),
{
    if patches.len() == 0 {
        0real
    } else {
        sum_yield(patches.drop_last(), herb_cfg, farming_level, herb, rescue)
            + patches.last().observed_yield(herb_cfg, farming_level, herb, rescue)
    }
}

/// The expected experience of the patches, added up.
pub open spec fn sum_xp(
    patches: Seq<HerbPatch>,
    herb_cfg: &FarmingHerbsConfig,
    farming_level: int,
    herb: Herb,
    rescue: Option<real>,
) -> real
    decreases patches.len(),
{
    if patches.len() == 0 {
        0real
    } else {
        sum_xp(patches.drop_last(), herb_cfg, farming_level, herb, rescue)
            + patches.last().observed_xp(herb_cfg, farming_level, herb, rescue)
    }
}

/// The expected profits of the patches, added up.
pub open spec fn sum_profit(
    patches: Seq<HerbPatch>,
    herb_cfg: &FarmingHerbsConfig,
    farming_level: int,
    herb: Herb,
    rescue: Option<real>,
    prices: Map<usize, ItemPrice>,
) -> int
    decreases patches.len(),
{
    if patches.len() == 0 {
        0
    } else {
        sum_profit(patches.drop_last(), herb_cfg, farming_level, herb, rescue, prices)
            + patches.last().profit(herb_cfg, farming_level, herb, rescue, prices)
    }
}

impl PatchStats {
    /// Whether these are the figures of a run over `patches`: the survival
    /// chance is the average over the patches; casts, yield, experience
    /// and profit are the sums; the prices are those of the one herb.
    pub open spec fn is_total_of(
        self,
        patches: Seq<HerbPatch>,
        herb_cfg: &FarmingHerbsConfig,
        farming_level: int,
        herb: Herb,
        rescue: Option<real>,
        prices: Map<usize, ItemPrice>,
    ) -> bool {
        &&& self.survival_chance@ == sum_survival(patches, herb_cfg, rescue) / patches.len() as real
        &&& self.resurrect_cast_chance@ == sum_cast(patches, herb_cfg, rescue)
        &&& self.expected_yield@ == sum_yield(patches, herb_cfg, farming_level, herb, rescue)
        &&& self.expected_xp@ == sum_xp(patches, herb_cfg, farming_level, herb, rescue)
        &&& self.seed_price == avg_price(prices, herb.seed_item_id())
        &&& self.grimy_herb_price == avg_price(prices, herb.grimy_herb_item_id())
        &&& self.expected_profit == sum_profit(
            patches,
            herb_cfg,
            farming_level,
            herb,
            rescue,
            prices,
        )
    }
}

/// The longest list of patches that a run can be worked out for.
pub const MAX_PATCHES: usize = 0xffff_ffff;

/// The most that four chances in 256ths can multiply to, all but one of
/// them.
pub const MAX_OTHERS: u128 = 16581375;

/// What a run over every configured patch is expected to give when `herb`
/// is planted in each: the average chance of survival, and the expected
/// casts, yield, experience and profit in total.
///
/// A run needs at least one patch. With Resurrect Crops in use it also
/// needs a magic level that is high enough to cast the spell. At every
/// patch the harvest must come to an end, which `do_harvests_end` tells.
pub fn calc_total_patch_stats(
    farming_level: usize,
    magic_level: Option<usize>,
    herb_cfg: &FarmingHerbsConfig,
    herb: Herb,
    client: &WikiItemClient,
) -> (r: Result<PatchStats, FarmError>)
    requires
        1 <= farming_level,
        herb_cfg.patches.len() <= MAX_PATCHES,
        harvests_end(herb_cfg, farming_level as int, herb),
    ensures
        herb_cfg.patches.len() == 0 ==> r is Err && r->Err_0 == FarmError::NoPatches,
        herb_cfg.patches.len() > 0 ==> match rescue_plan(herb_cfg, magic_level) {
            Ok(rescue) => r is Ok && r->Ok_0.is_total_of(
                herb_cfg.patches@,
                herb_cfg,
                farming_level as int,
                herb,
                rescue,
                client.prices@,
            ),
            Err(e) => r is Err && r->Err_0 == e,
        },
{
    let n: usize = herb_cfg.patches.len();
    if n == 0 {
        return Err(FarmError::NoPatches);
    }
    let rescue = rescue_84ths(herb_cfg, magic_level)?;
    // The chance that a pick uses up a harvest life takes one of four
    // values, by the bonus of the patch. Over the product of the four every
    // patch's yield has the same denominator.
    let attas: u128 = herb_cfg.attas_percent();
    let q0: u128 = spare_count(herb_cfg, farming_level, herb, 0, attas);
    let q5: u128 = spare_count(herb_cfg, farming_level, herb, 5, attas);
    let q10: u128 = spare_count(herb_cfg, farming_level, herb, 10, attas);
    let q15: u128 = spare_count(herb_cfg, farming_level, herb, 15, attas);
    assert(q0 * q5 <= 65025 && q0 * q5 * q10 <= 16581375 && q0 * q5 * q10 * q15 <= 4228250625
        && q0 * q5 * q10 * q15 > 0) by (nonlinear_arith)
        requires
            1 <= q0 <= 255,
            1 <= q5 <= 255,
            1 <= q10 <= 255,
            1 <= q15 <= 255,
    ;
    let all: u128 = q0 * q5 * q10 * q15;
    let yield_den: u128 = all * SURVIVAL_DENOM;
    let xp_den: u128 = 2 * yield_den;
    let ghost real_rescue = in_84ths(rescue);
    let ghost level = farming_level as int;
    let ghost prices = client.prices@;
    proof {
        lemma_zero_count(SURVIVAL_DENOM as int);
        lemma_zero_count(CUBE_128 as int);
        lemma_zero_count(yield_den as int);
        lemma_zero_count(xp_den as int);
        assert(herb_cfg.patches@.take(0).len() == 0);
    }
    let mut alive: u128 = 0;
    let mut cast: u128 = 0;
    let mut leaves: u128 = 0;
    let mut xp: u128 = 0;
    let mut profit: i128 = 0;
    let mut i: usize = 0;
    while i < n
        invariant
            i <= n,
            n == herb_cfg.patches.len(),
            n <= MAX_PATCHES,
            1 <= farming_level,
            level == farming_level as int,
            harvests_end(herb_cfg, level, herb),
            prices == client.prices@,
            rescue matches Some(k) ==> k <= 84,
            real_rescue == in_84ths(rescue),
            attas == herb_cfg.attas_bonus_percent(),
            q0 == spare_at(herb_cfg, level, herb, 0),
            q5 == spare_at(herb_cfg, level, herb, 5),
            q10 == spare_at(herb_cfg, level, herb, 10),
            q15 == spare_at(herb_cfg, level, herb, 15),
            1 <= q0 <= 255,
            1 <= q5 <= 255,
            1 <= q10 <= 255,
            1 <= q15 <= 255,
            all == q0 * q5 * q10 * q15,
            0 < all <= 4228250625,
            yield_den == all * SURVIVAL_DENOM,
            xp_den == 2 * yield_den,
            alive <= i * SURVIVAL_DENOM,
            cast <= i * CUBE_128,
            leaves <= i * 4486637190905856000,
            xp <= i * 2365325332970471424000,
            -1014570924054025338825 * i <= profit <= 28334198897217871280640 * i,
            alive as real / (SURVIVAL_DENOM as real) == sum_survival(
                herb_cfg.patches@.take(i as int),
                herb_cfg,
                real_rescue,
            ),
            cast as real / (CUBE_128 as real) == sum_cast(
                herb_cfg.patches@.take(i as int),
                herb_cfg,
                real_rescue,
            ),
            leaves as real / yield_den as real == sum_yield(
                herb_cfg.patches@.take(i as int),
                herb_cfg,
                level,
                herb,
                real_rescue,
            ),
            xp as real / xp_den as real == sum_xp(
                herb_cfg.patches@.take(i as int),
                herb_cfg,
                level,
                herb,
                real_rescue,
            ),
            profit == sum_profit(
                herb_cfg.patches@.take(i as int),
                herb_cfg,
                level,
                herb,
                real_rescue,
                prices,
            ),
        decreases n - i,
    {
        let patch = herb_cfg.patches[i];
        assert(patch.harvest_ends(herb_cfg, level, herb));
        let counts = patch.count_patch(farming_level, rescue, herb_cfg, herb, client);
        let tier: u128 = patch.yield_percent(herb_cfg);
        proof {
            lemma_others(q0 as int, q5 as int, q10 as int, q15 as int, tier as int);
        }
        let others: u128 = if tier == 0 {
            q5 * q10 * q15
        } else if tier == 5 {
            q0 * q10 * q15
        } else if tier == 10 {
            q0 * q5 * q15
        } else {
            q0 * q5 * q10
        };
        proof {
            patch.lemma_save_numer_bounds(herb_cfg, level, herb);
            let spare = counts.spare as int;
            assert(spare == spare_at(herb_cfg, level, herb, tier as int));
            lemma_others(q0 as int, q5 as int, q10 as int, q15 as int, tier as int);
            assert(all == spare * others);
            assert(0 < others <= MAX_OTHERS);
            lemma_common_denominator(
                counts.yield_num as int,
                counts.xp_num as int,
                spare,
                others as int,
                all as int,
            );
            lemma_add_counts(alive as int, counts.alive as int, SURVIVAL_DENOM as int);
            lemma_add_counts(cast as int, counts.cast as int, CUBE_128 as int);
            lemma_add_counts(leaves as int, (counts.yield_num * others) as int, yield_den as int);
            lemma_add_counts(xp as int, (counts.xp_num * others) as int, xp_den as int);
            let next = herb_cfg.patches@.take(i + 1);
            assert(next.drop_last() =~= herb_cfg.patches@.take(i as int));
            assert(next.last() == patch);
            assert(counts.yield_num * others <= 4486637190905856000 && counts.xp_num * others
                <= 2365325332970471424000) by (nonlinear_arith)
                requires
                    counts.yield_num <= 270582939648,
                    counts.xp_num <= 142649528942592,
                    0 < others <= 16581375,
            ;
            assert(-1014570924054025338825 <= counts.prices.expected_profit <= 28334198897217871280640);
        }
        alive = alive + counts.alive;
        cast = cast + counts.cast;
        leaves = leaves + counts.yield_num * others;
        xp = xp + counts.xp_num * others;
        profit = profit + counts.prices.expected_profit;
        i = i + 1;
    }
    proof {
        assert(herb_cfg.patches@.take(n as int) =~= herb_cfg.patches@);
        lemma_average_count(alive as int, SURVIVAL_DENOM as int, n as int);
    }
    Ok(
        PatchStats {
            survival_chance: Ratio::from_parts(alive, (n as u128) * SURVIVAL_DENOM),
            resurrect_cast_chance: Ratio::from_parts(cast, CUBE_128),
            expected_yield: Ratio::from_parts(leaves, yield_den),
            expected_xp: Ratio::from_parts(xp, xp_den),
            seed_price: client.get_avg_price(herb.seed_item_id()),
            grimy_herb_price: client.get_avg_price(herb.grimy_herb_item_id()),
            expected_profit: profit,
        },
    )
}

/// Whether every patch of the configuration comes to the end of its
/// harvest when `herb` is picked there: each pick uses up a harvest life
/// with some chance at least. That is so at every farming level up to 99.
pub open spec fn harvests_end(herb_cfg: &FarmingHerbsConfig, farming_level: int, herb: Herb) -> bool {
    forall|i: int|
        0 <= i < herb_cfg.patches.len() ==> (#[trigger] herb_cfg.patches[i]).harvest_ends(
            herb_cfg,
            farming_level,
            herb,
        )
}

/// Up to farming level 99 every harvest comes to an end.
pub proof fn lemma_harvests_end(herb_cfg: &FarmingHerbsConfig, farming_level: int, herb: Herb)
    requires
        1 <= farming_level <= 99,
    ensures
        harvests_end(herb_cfg, farming_level, herb),
{
    assert forall|i: int| 0 <= i < herb_cfg.patches.len() implies (
    #[trigger] herb_cfg.patches[i]).harvest_ends(herb_cfg, farming_level, herb) by {
        herb_cfg.patches[i].lemma_save_numer_bounds(herb_cfg, farming_level, herb);
    }
}

/// Tells whether every patch of the configuration comes to the end of its
/// harvest when `herb` is picked there.
pub fn do_harvests_end(herb_cfg: &FarmingHerbsConfig, farming_level: usize, herb: Herb) -> (all:
    bool)
    requires
        1 <= farming_level,
    ensures
        all == harvests_end(herb_cfg, farming_level as int, herb),
        farming_level <= 99 ==> all,
{
    proof {
        if farming_level <= 99 {
            lemma_harvests_end(herb_cfg, farming_level as int, herb);
        }
    }
    let mut i: usize = 0;
    while i < herb_cfg.patches.len()
        invariant
            i <= herb_cfg.patches.len(),
            1 <= farming_level,
            forall|j: int|
                0 <= j < i ==> (#[trigger] herb_cfg.patches[j]).harvest_ends(
                    herb_cfg,
                    farming_level as int,
                    herb,
                ),
        decreases herb_cfg.patches.len() - i,
    {
        if !herb_cfg.patches[i].is_harvest_ending(herb_cfg, farming_level, herb) {
            return false;
        }
        i = i + 1;
    }
    true
}

/// The chance in 256ths that a pick uses up a harvest life at a patch whose
/// own yield bonus is `tier` percent; one, to have a number, where the
/// harvest of such a patch would not end.
pub open spec fn spare_at(
    herb_cfg: &FarmingHerbsConfig,
    farming_level: int,
    herb: Herb,
    tier: int,
) -> int {
    let save = save_chance_numer_at(herb_cfg, farming_level, herb, tier);
    if save < 256 {
        256 - save
    } else {
        1
    }
}

/// Counts in 256ths the chance that a pick uses up a harvest life at a
/// patch whose own yield bonus is `tier` percent.
fn spare_count(
    herb_cfg: &FarmingHerbsConfig,
    farming_level: usize,
    herb: Herb,
    tier: u128,
    attas: u128,
) -> (spare: u128)
    requires
        1 <= farming_level,
        tier <= 15,
        attas == herb_cfg.attas_bonus_percent(),
    ensures
        spare == spare_at(herb_cfg, farming_level as int, herb, tier as int),
        1 <= spare <= 255,
{
    let save: u128 = save_count(herb_cfg, farming_level, herb, tier + attas);
    if save < 256 {
        256 - save
    } else {
        1
    }
}

/// The chance in 256ths to save a harvest life at a patch whose own yield
/// bonus is `tier` percent.
pub open spec fn save_chance_numer_at(
    herb_cfg: &FarmingHerbsConfig,
    farming_level: int,
    herb: Herb,
    tier: int,
) -> int {
    crate::model::save_chance_numer(
        herb.chance_to_save(),
        farming_level,
        herb_cfg.item_bonus_percent() as real / 100real,
        (tier + herb_cfg.attas_bonus_percent()) as real / 100real,
    )
}

/// Nothing, counted over any denominator, is nothing.
proof fn lemma_zero_count(den: int)
    requires
        den > 0,
    ensures
        0 as real / den as real == 0real,
{
    let d = den as real;
    assert(0real / d == 0real) by (nonlinear_arith)
        requires
            d > 0real,
    ;
}

/// The product of the four denominators is the denominator of a patch's
/// tier times the product of the other three.
proof fn lemma_others(q0: int, q5: int, q10: int, q15: int, tier: int)
    requires
        1 <= q0 <= 255,
        1 <= q5 <= 255,
        1 <= q10 <= 255,
        1 <= q15 <= 255,
    ensures
        q0 * q5 * q10 * q15 == q0 * (q5 * q10 * q15),
        q0 * q5 * q10 * q15 == q5 * (q0 * q10 * q15),
        q0 * q5 * q10 * q15 == q10 * (q0 * q5 * q15),
        q0 * q5 * q10 * q15 == q15 * (q0 * q5 * q10),
        0 < q5 * q10 * q15 <= 16581375,
        0 < q0 * q10 * q15 <= 16581375,
        0 < q0 * q5 * q15 <= 16581375,
        0 < q0 * q5 * q10 <= 16581375,
        0 < q5 * q10 <= 65025,
        0 < q0 * q10 <= 65025,
        0 < q0 * q5 <= 65025,
{
    assert(0 < q5 * q10 <= 65025 && 0 < q0 * q10 <= 65025 && 0 < q0 * q5 <= 65025)
        by (nonlinear_arith)
        requires
            1 <= q0 <= 255,
            1 <= q5 <= 255,
            1 <= q10 <= 255,
    ;
    assert(q0 * q5 * q10 * q15 == q0 * (q5 * q10 * q15) && q0 * q5 * q10 * q15 == q5 * (q0 * q10
        * q15)) by (nonlinear_arith);
    assert(q0 * q5 * q10 * q15 == q10 * (q0 * q5 * q15) && q0 * q5 * q10 * q15 == q15 * (q0 * q5
        * q10)) by (nonlinear_arith);
    assert(0 < q5 * q10 * q15 <= 16581375 && 0 < q0 * q10 * q15 <= 16581375) by (nonlinear_arith)
        requires
            1 <= q0 <= 255,
            1 <= q5 <= 255,
            1 <= q10 <= 255,
            1 <= q15 <= 255,
    ;
    assert(0 < q0 * q5 * q15 <= 16581375 && 0 < q0 * q5 * q10 <= 16581375) by (nonlinear_arith)
        requires
            1 <= q0 <= 255,
            1 <= q5 <= 255,
            1 <= q10 <= 255,
            1 <= q15 <= 255,
    ;
}

/// Counted over the common denominator, the yield and the experience of a
/// patch are what they are over the patch's own.
proof fn lemma_common_denominator(yield_num: int, xp_num: int, spare: int, others: int, all: int)
    requires
        spare > 0,
        others > 0,
        all == spare * others,
    ensures
        (yield_num * others) as real / (all * SURVIVAL_DENOM) as real == yield_num as real / (spare
            * SURVIVAL_DENOM) as real,
        (xp_num * others) as real / (2 * (all * SURVIVAL_DENOM)) as real == xp_num as real / (2 * (
        spare * SURVIVAL_DENOM)) as real,
{
    let d = SURVIVAL_DENOM as int;
    assert(all * d == (spare * d) * others && 2 * (all * d) == (2 * (spare * d)) * others && spare
        * d > 0) by (nonlinear_arith)
        requires
            all == spare * others,
            spare > 0,
            d > 0,
    ;
    lemma_scaled_quotient(yield_num, spare * d, others);
    lemma_scaled_quotient(xp_num, 2 * (spare * d), others);
}

} // verus!
