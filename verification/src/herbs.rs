//! Every herb at once: what a run gives for each herb that the player can
//! grow, and which of them stand out.

use crate::config::FarmingHerbsConfig;
use crate::error::FarmError;
use crate::farm::{rescue_84ths, Herb, PatchStats};
use crate::item::WikiItemClient;
use crate::model::rescue_plan;
use crate::run::{
    calc_total_patch_stats, do_harvests_end, harvests_end, lemma_harvests_end, MAX_PATCHES,
};
use vstd::prelude::*;

verus! {

/// Every herb, from the one that needs the lowest farming level to the one
/// that needs the highest.
pub open spec fn all_herbs() -> Seq<Herb> {
    seq![
        Herb::Guam,
        Herb::Marrentill,
        Herb::Tarromin,
        Herb::Harralander,
        Herb::Goutweed,
        Herb::Ranarr,
        Herb::Toadflax,
        Herb::Irit,
        Herb::Avantoe,
        Herb::Kwuarm,
        Herb::Snapdragon,
        Herb::Cadantine,
        Herb::Lantadyme,
        Herb::Dwarf,
        Herb::Torstol,
    ]
}

impl Herb {
    /// Every herb, from the one that needs the lowest farming level to the
    /// one that needs the highest.
    pub fn all() -> (herbs: Vec<Herb>)
        ensures
            herbs@ == all_herbs(),
    {
        let herbs = vec![
            Herb::Guam,
            Herb::Marrentill,
            Herb::Tarromin,
            Herb::Harralander,
            Herb::Goutweed,
            Herb::Ranarr,
            Herb::Toadflax,
            Herb::Irit,
            Herb::Avantoe,
            Herb::Kwuarm,
            Herb::Snapdragon,
            Herb::Cadantine,
            Herb::Lantadyme,
            Herb::Dwarf,
            Herb::Torstol,
        ];
        assert(herbs@ =~= all_herbs());
        herbs
    }
}

/// The herbs of a list that can be grown at a farming level, in their
/// order.
pub open spec fn growable(herbs: Seq<Herb>, farming_level: usize) -> Seq<Herb> {
    herbs.filter(|herb: Herb| herb.farming_level() <= farming_level)
}

/// Whether `rows` hold, for each herb that can be grown at the farming
/// level and in the order of the herbs, the figures of a run with that
/// herb.
pub open spec fn are_herb_rows(
    rows: Seq<(Herb, PatchStats)>,
    herb_cfg: &FarmingHerbsConfig,
    farming_level: usize,
    rescue: Option<real>,
    client: &WikiItemClient,
) -> bool {
    &&& rows.len() == growable(all_herbs(), farming_level).len()
    &&& forall|i: int|
        0 <= i < rows.len() ==> {
            &&& (#[trigger] rows[i]).0 == growable(all_herbs(), farming_level)[i]
            &&& rows[i].1.is_total_of(
                herb_cfg.patches@,
                herb_cfg,
                farming_level as int,
                rows[i].0,
                rescue,
                client.prices@,
            )
        }
}

/// Whether the harvest of every herb that can be grown at the farming level
/// comes to an end at every patch of the configuration. That is so at every
/// farming level up to 99.
pub open spec fn every_harvest_ends(herb_cfg: &FarmingHerbsConfig, farming_level: usize) -> bool {
    forall|herb: Herb|
        herb.farming_level() <= farming_level ==> #[trigger] harvests_end(
            herb_cfg,
            farming_level as int,
            herb,
        )
}

/// Up to farming level 99 the harvest of every herb comes to an end.
pub proof fn lemma_every_harvest_ends(herb_cfg: &FarmingHerbsConfig, farming_level: usize)
    requires
        1 <= farming_level <= 99,
    ensures
        every_harvest_ends(herb_cfg, farming_level),
{
    assert forall|herb: Herb| herb.farming_level() <= farming_level implies #[trigger] harvests_end(
        herb_cfg,
        farming_level as int,
        herb,
    ) by {
        lemma_harvests_end(herb_cfg, farming_level as int, herb);
    }
}

/// Tells whether the harvest of every herb that can be grown at the farming
/// level comes to an end at every patch of the configuration.
pub fn does_every_harvest_end(herb_cfg: &FarmingHerbsConfig, farming_level: usize) -> (all: bool)
    requires
        1 <= farming_level,
    ensures
        all == every_harvest_ends(herb_cfg, farming_level),
        farming_level <= 99 ==> all,
{
    proof {
        if farming_level <= 99 {
            lemma_every_harvest_ends(herb_cfg, farming_level);
        }
    }
    let herbs = Herb::all();
    let mut i: usize = 0;
    while i < herbs.len()
        invariant
            i <= herbs.len(),
            herbs@ == all_herbs(),
            1 <= farming_level,
            forall|j: int|
                0 <= j < i && (#[trigger] herbs[j]).farming_level() <= farming_level
                    ==> harvests_end(herb_cfg, farming_level as int, herbs[j]),
        decreases herbs.len() - i,
    {
        let herb = herbs[i];
        if herb.farming_level() <= farming_level && !do_harvests_end(
            herb_cfg,
            farming_level,
            herb,
        ) {
            return false;
        }
        i = i + 1;
    }
    proof {
        assert forall|herb: Herb| herb.farming_level() <= farming_level implies #[trigger] harvests_end(
            herb_cfg,
            farming_level as int,
            herb,
        ) by {
            lemma_all_herbs_listed(herb);
            let j = choose|j: int| 0 <= j < all_herbs().len() && all_herbs()[j] == herb;
            assert(herbs[j] == herb);
        }
    }
    true
}

/// Every herb stands in the list of all herbs.
pub proof fn lemma_all_herbs_listed(herb: Herb)
    ensures
        exists|j: int| 0 <= j < all_herbs().len() && all_herbs()[j] == herb,
{
    let herbs = all_herbs();
    match herb {
        Herb::Guam => assert(herbs[0] == herb),
        Herb::Marrentill => assert(herbs[1] == herb),
        Herb::Tarromin => assert(herbs[2] == herb),
        Herb::Harralander => assert(herbs[3] == herb),
        Herb::Goutweed => assert(herbs[4] == herb),
        Herb::Ranarr => assert(herbs[5] == herb),
        Herb::Toadflax => assert(herbs[6] == herb),
        Herb::Irit => assert(herbs[7] == herb),
        Herb::Avantoe => assert(herbs[8] == herb),
        Herb::Kwuarm => assert(herbs[9] == herb),
        Herb::Snapdragon => assert(herbs[10] == herb),
        Herb::Cadantine => assert(herbs[11] == herb),
        Herb::Lantadyme => assert(herbs[12] == herb),
        Herb::Dwarf => assert(herbs[13] == herb),
        Herb::Torstol => assert(herbs[14] == herb),
    }
}

/// What a run is expected to give, for each herb that the player can grow
/// at the farming level, from the lowest herb to the highest.
///
/// A run needs at least one patch. With Resurrect Crops in use it also
/// needs a magic level that is high enough to cast the spell. Either is
/// checked before any herb is looked at. The harvest of each of these
/// herbs must come to an end, which `does_every_harvest_end` tells.
pub fn calc_herb_stats(
    farming_level: usize,
    magic_level: Option<usize>,
    herb_cfg: &FarmingHerbsConfig,
    client: &WikiItemClient,
) -> (r: Result<Vec<(Herb, PatchStats)>, FarmError>)
    requires
        1 <= farming_level,
        herb_cfg.patches.len() <= MAX_PATCHES,
        every_harvest_ends(herb_cfg, farming_level),
    ensures
        herb_cfg.patches.len() == 0 ==> r is Err && r->Err_0 == FarmError::NoPatches,
        herb_cfg.patches.len() > 0 ==> match rescue_plan(herb_cfg, magic_level) {
            Ok(rescue) => r is Ok && are_herb_rows(
                r->Ok_0@,
                herb_cfg,
                farming_level,
                rescue,
                client,
            ),
            Err(e) => r is Err && r->Err_0 == e,
        },
{
    if herb_cfg.patches.len() == 0 {
        return Err(FarmError::NoPatches);
    }
    let checked = rescue_84ths(herb_cfg, magic_level)?;
    let ghost rescue = rescue_plan(herb_cfg, magic_level)->Ok_0;
    let herbs = Herb::all();
    let ghost can_grow = |herb: Herb| herb.farming_level() <= farming_level;
    let mut rows: Vec<(Herb, PatchStats)> = Vec::new();
    let mut i: usize = 0;
    while i < herbs.len()
        invariant
            i <= herbs.len(),
            herbs@ == all_herbs(),
            1 <= farming_level,
            every_harvest_ends(herb_cfg, farming_level),
            0 < herb_cfg.patches.len() <= MAX_PATCHES,
            rescue_plan(herb_cfg, magic_level) == Ok::<Option<real>, FarmError>(rescue),
            can_grow == |herb: Herb| herb.farming_level() <= farming_level,
            rows@.len() == herbs@.take(i as int).filter(can_grow).len(),
            forall|j: int|
                0 <= j < rows.len() ==> {
                    &&& (#[trigger] rows[j]).0 == herbs@.take(i as int).filter(can_grow)[j]
                    &&& rows[j].1.is_total_of(
                        herb_cfg.patches@,
                        herb_cfg,
                        farming_level as int,
                        rows[j].0,
                        rescue,
                        client.prices@,
                    )
                },
        decreases herbs.len() - i,
    {
        let herb = herbs[i];
        proof {
            let next = herbs@.take(i + 1);
            assert(next.drop_last() =~= herbs@.take(i as int));
            assert(next.last() == herb);
            reveal(Seq::filter);
        }
        if herb.farming_level() <= farming_level {
            match calc_total_patch_stats(farming_level, magic_level, herb_cfg, herb, client) {
                Ok(stats) => {
                    rows.push((herb, stats));
                },
                Err(e) => {
                    return Err(e);
                },
            }
        }
        i = i + 1;
    }
    proof {
        assert(herbs@.take(herbs.len() as int) =~= herbs@);
    }
    Ok(rows)
}

/// How a row of the table stands out by its profit.
#[derive(Copy, Clone, Debug, PartialEq, Eq)]
pub enum ProfitStyle {
    /// The herb loses money.
    Loss,
    /// The herb makes money, but less than four fifths of the best.
    Profit,
    /// The herb makes at least four fifths of what the best one makes.
    NearBest,
    /// No herb makes more.
    Best,
}

/// How a herb that makes `profit` stands out when the best herb makes
/// `best`. A loss is a loss. Where the best herb makes money, the herb that
/// makes as much is the best, and one that makes four fifths of it or more
/// is near the best. Where the best makes nothing there is nothing to
/// measure by, and where it loses, none of this is asked.
pub open spec fn style_of(profit: int, best: int) -> ProfitStyle {
    if profit < 0 {
        ProfitStyle::Loss
    } else if best > 0 && profit == best {
        ProfitStyle::Best
    } else if (best > 0 && 5 * profit >= 4 * best) || (best == 0 && profit > 0) {
        ProfitStyle::NearBest
    } else {
        ProfitStyle::Profit
    }
}

/// The highest profit of any row, if there is a row.
pub fn best_profit(rows: &Vec<(Herb, PatchStats)>) -> (best: Option<i128>)
    ensures
        best is None <==> rows.len() == 0,
        best matches Some(b) ==> {
            &&& forall|i: int| 0 <= i < rows.len() ==> rows[i].1.expected_profit <= b
            &&& exists|i: int| 0 <= i < rows.len() && rows[i].1.expected_profit == b
        },
{
    if rows.len() == 0 {
        return None;
    }
    let mut best: i128 = rows[0].1.expected_profit;
    let mut i: usize = 1;
    while i < rows.len()
        invariant
            1 <= i <= rows.len(),
            forall|j: int| 0 <= j < i ==> rows[j].1.expected_profit <= best,
            exists|j: int| 0 <= j < i && rows[j].1.expected_profit == best,
        decreases rows.len() - i,
    {
        if rows[i].1.expected_profit > best {
            best = rows[i].1.expected_profit;
        }
        i = i + 1;
    }
    Some(best)
}

/// How a herb stands out by its profit: a loss, a profit, a profit within
/// a fifth of the best, or the best.
pub fn profit_style(profit: i128, best: i128) -> (style: ProfitStyle)
    ensures
        style == style_of(profit as int, best as int),
{
    if profit < 0 {
        ProfitStyle::Loss
    } else if best > 0 && profit == best {
        ProfitStyle::Best
    } else if best > 0 && (profit > best || best - profit <= profit / 4) {
        // four times what is missing is no more than the profit itself
        ProfitStyle::NearBest
    } else if best == 0 && profit > 0 {
        ProfitStyle::NearBest
    } else {
        ProfitStyle::Profit
    }
}

} // verus!
