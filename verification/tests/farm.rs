use osrs_cli::config::FarmingHerbsConfig;
use osrs_cli::diary::AchievementDiaryLevel;
use osrs_cli::error::FarmError;
use osrs_cli::farm::{AnimaPlant, Compost, Herb, HerbPatch, PatchStats};
use osrs_cli::item::{ItemPrice, WikiItemClient};
use osrs_cli::magic::{Rune, Spell};
use osrs_cli::ratio::Ratio;
use osrs_cli::run::calc_total_patch_stats;
use std::collections::HashMap;

fn ratio(num: u128, den: u128) -> Ratio {
    Ratio::new(num, den).unwrap()
}

fn traded_at(price: usize) -> ItemPrice {
    ItemPrice {
        high: Some(price),
        high_time: Some(0),
        low: Some(price),
        low_time: Some(0),
    }
}

/// Prices for one herb: the herb at 7000, its seed at 30000, every compost
/// at 400, and runes that add up to 5325 for one cast of Resurrect Crops.
fn market(herb: Herb) -> WikiItemClient {
    let mut prices = HashMap::new();
    prices.insert(herb.grimy_herb_item_id(), traded_at(7000));
    prices.insert(herb.seed_item_id(), traded_at(30000));
    prices.insert(Compost::Normal.item_id(), traded_at(400));
    prices.insert(Compost::Supercompost.item_id(), traded_at(400));
    prices.insert(Compost::Ultracompost.item_id(), traded_at(400));
    prices.insert(Rune::Earth.item_id(), traded_at(5));
    prices.insert(Rune::Nature.item_id(), traded_at(100));
    prices.insert(Rune::Blood.item_id(), traded_at(350));
    prices.insert(Rune::Soul.item_id(), traded_at(150));
    WikiItemClient::new(Vec::new(), prices)
}

fn bare(patches: Vec<HerbPatch>) -> FarmingHerbsConfig {
    FarmingHerbsConfig {
        patches,
        ..FarmingHerbsConfig::default()
    }
}

fn well_equipped(patches: Vec<HerbPatch>) -> FarmingHerbsConfig {
    FarmingHerbsConfig {
        patches,
        magic_secateurs: true,
        farming_cape: true,
        bottomless_bucket: true,
        resurrect_crops: true,
        compost: Some(Compost::Ultracompost),
        anima_plant: Some(AnimaPlant::Attas),
        hosidius_fifty_favor: true,
        falador_diary: Some(AchievementDiaryLevel::Medium),
        kandarin_diary: Some(AchievementDiaryLevel::Elite),
        kourend_diary: Some(AchievementDiaryLevel::Hard),
    }
}

fn every_patch() -> Vec<HerbPatch> {
    vec![
        HerbPatch::Ardougne,
        HerbPatch::Catherby,
        HerbPatch::Falador,
        HerbPatch::FarmingGuild,
        HerbPatch::HarmonyIsland,
        HerbPatch::Hosidius,
        HerbPatch::PortPhasmatys,
        HerbPatch::TrollStronghold,
        HerbPatch::Weiss,
    ]
}

fn assert_stats(
    stats: &PatchStats,
    survival: (u128, u128),
    cast: (u128, u128),
    leaves: (u128, u128),
    xp: (u128, u128),
    profit: i128,
) {
    assert_eq!(stats.survival_chance, ratio(survival.0, survival.1));
    assert_eq!(stats.resurrect_cast_chance, ratio(cast.0, cast.1));
    assert_eq!(stats.expected_yield, ratio(leaves.0, leaves.1));
    assert_eq!(stats.expected_xp, ratio(xp.0, xp.1));
    assert_eq!(stats.expected_profit, profit);
}

#[test]
fn test_ranarr_at_level_99_with_nothing_else() {
    let cfg = bare(vec![HerbPatch::Ardougne]);
    let client = market(Herb::Ranarr);
    // the yield curve ends at 80, so the chance to save a life is 81/256
    assert_eq!(
        HerbPatch::Ardougne.calc_chance_to_save(&cfg, 99, Herb::Ranarr),
        ratio(81, 256)
    );
    assert_eq!(
        HerbPatch::Ardougne.calc_expected_yield(&cfg, 99, Herb::Ranarr),
        ratio(768, 175)
    );
    let stats = HerbPatch::Ardougne
        .calc_patch_stats(99, None, &cfg, Herb::Ranarr, &client)
        .unwrap();
    assert_stats(
        &stats,
        (1030301, 2097152),
        (0, 1),
        (3090903, 1433600),
        (29001942849, 367001600),
        -14908,
    );
    assert_eq!(stats.seed_price, Some(30000));
    assert_eq!(stats.grimy_herb_price, Some(7000));
    // one patch: the run is the patch
    let run = calc_total_patch_stats(99, None, &cfg, Herb::Ranarr, &client).unwrap();
    assert_stats(
        &run,
        (1030301, 2097152),
        (0, 1),
        (3090903, 1433600),
        (29001942849, 367001600),
        -14908,
    );
}

#[test]
fn test_hosidius_with_favor_is_disease_free() {
    for compost in [
        None,
        Some(Compost::Normal),
        Some(Compost::Supercompost),
        Some(Compost::Ultracompost),
    ] {
        for anima_plant in [None, Some(AnimaPlant::Iasor), Some(AnimaPlant::Kronos)] {
            let cfg = FarmingHerbsConfig {
                hosidius_fifty_favor: true,
                compost,
                anima_plant,
                ..bare(vec![HerbPatch::Hosidius])
            };
            assert!(HerbPatch::Hosidius.disease_free(&cfg));
            let (survival, cast) = HerbPatch::Hosidius.calc_survival_chance(None, &cfg).unwrap();
            assert_eq!(survival, ratio(1, 1));
            assert_eq!(cast, ratio(0, 1));
        }
    }
    let cfg = bare(vec![HerbPatch::Hosidius]);
    assert!(!HerbPatch::Hosidius.disease_free(&cfg));
}

#[test]
fn test_disease_free_patch_with_favor_figures() {
    let cfg = FarmingHerbsConfig {
        hosidius_fifty_favor: true,
        ..bare(vec![HerbPatch::Hosidius])
    };
    let stats = HerbPatch::Hosidius
        .calc_patch_stats(50, None, &cfg, Herb::Guam, &market(Herb::Guam))
        .unwrap();
    assert_stats(&stats, (1, 1), (0, 1), (768, 203), (11833, 203), -3518);
}

#[test]
fn test_only_three_patches_can_be_disease_free() {
    let favored = FarmingHerbsConfig {
        hosidius_fifty_favor: true,
        ..bare(Vec::new())
    };
    for patch in every_patch() {
        let expected = matches!(
            patch,
            HerbPatch::TrollStronghold | HerbPatch::Weiss | HerbPatch::Hosidius
        );
        assert_eq!(patch.disease_free(&favored), expected);
    }
}

#[test]
fn test_resurrect_crops_at_the_required_level() {
    assert_eq!(Spell::ResurrectCrops.level(), 78);
    assert_eq!(Spell::resurrect_crops_chance(78), Ok(ratio(1, 2)));
    assert_eq!(Spell::resurrect_crops_chance(99), Ok(ratio(3, 4)));
    assert_eq!(Spell::resurrect_crops_chance(85), Ok(ratio(7, 12)));
    assert_eq!(Spell::resurrect_crops_chance(120), Ok(ratio(3, 4)));
    assert_eq!(
        Spell::resurrect_crops_chance(77),
        Err(FarmError::MagicLevelTooLow {
            required: 78,
            actual: 77
        })
    );
    assert_eq!(
        Spell::resurrect_crops_chance(0),
        Err(FarmError::MagicLevelTooLow {
            required: 78,
            actual: 0
        })
    );
}

#[test]
fn test_rescue_figures() {
    let cfg = FarmingHerbsConfig {
        resurrect_crops: true,
        ..bare(vec![HerbPatch::Ardougne])
    };
    let client = market(Herb::Ranarr);
    let at_78 = HerbPatch::Ardougne
        .calc_patch_stats(99, Some(78), &cfg, Herb::Ranarr, &client)
        .unwrap();
    assert_stats(
        &at_78,
        (2886883, 4194304),
        (1066851, 2097152),
        (8660649, 2867200),
        (81262869567, 734003200),
        -11564,
    );
    let at_99 = HerbPatch::Ardougne
        .calc_patch_stats(99, Some(99), &cfg, Herb::Ranarr, &client)
        .unwrap();
    assert_stats(
        &at_99,
        (6600047, 8388608),
        (1066851, 2097152),
        (19800141, 5734400),
        (185784723003, 1468006400),
        -8538,
    );
}

#[test]
fn test_rescue_that_cannot_be_cast_is_an_error() {
    let cfg = FarmingHerbsConfig {
        resurrect_crops: true,
        ..bare(vec![HerbPatch::Ardougne])
    };
    let client = market(Herb::Ranarr);
    let too_low = FarmError::MagicLevelTooLow {
        required: 78,
        actual: 77,
    };
    assert_eq!(
        HerbPatch::Ardougne.calc_survival_chance(Some(77), &cfg),
        Err(too_low)
    );
    assert_eq!(
        HerbPatch::Ardougne
            .calc_patch_stats(99, Some(77), &cfg, Herb::Ranarr, &client)
            .unwrap_err(),
        too_low
    );
    assert_eq!(
        calc_total_patch_stats(99, Some(77), &cfg, Herb::Ranarr, &client).unwrap_err(),
        too_low
    );
    assert_eq!(
        calc_total_patch_stats(99, None, &cfg, Herb::Ranarr, &client).unwrap_err(),
        FarmError::MagicLevelMissing
    );
    // without the spell the magic level does not matter
    let plain = bare(vec![HerbPatch::Ardougne]);
    assert!(calc_total_patch_stats(99, Some(1), &plain, Herb::Ranarr, &client).is_ok());
    assert!(calc_total_patch_stats(99, None, &plain, Herb::Ranarr, &client).is_ok());
}

#[test]
fn test_run_without_patches_is_an_error() {
    let client = market(Herb::Ranarr);
    assert_eq!(
        calc_total_patch_stats(99, None, &bare(Vec::new()), Herb::Ranarr, &client).unwrap_err(),
        FarmError::NoPatches
    );
    // the missing patches are reported before the magic level is looked at
    let cfg = FarmingHerbsConfig {
        resurrect_crops: true,
        ..bare(Vec::new())
    };
    assert_eq!(
        calc_total_patch_stats(99, Some(1), &cfg, Herb::Ranarr, &client).unwrap_err(),
        FarmError::NoPatches
    );
}

#[test]
fn test_herb_without_price_earns_nothing_and_shows_none() {
    let cfg = FarmingHerbsConfig {
        compost: Some(Compost::Ultracompost),
        bottomless_bucket: true,
        ..bare(vec![HerbPatch::Ardougne])
    };
    let mut prices = HashMap::new();
    prices.insert(Herb::Ranarr.seed_item_id(), traded_at(30000));
    prices.insert(Compost::Ultracompost.item_id(), traded_at(401));
    let client = WikiItemClient::new(Vec::new(), prices);
    let stats = HerbPatch::Ardougne
        .calc_patch_stats(99, None, &cfg, Herb::Ranarr, &client)
        .unwrap();
    assert_eq!(stats.grimy_herb_price, None);
    assert_eq!(stats.seed_price, Some(30000));
    // the seed and half a bucket of compost, rounded down
    assert_eq!(stats.expected_profit, -30200);
    assert_stats(
        &stats,
        (1953125, 2097152),
        (0, 1),
        (234375, 28672),
        (4557622929, 14680064),
        -30200,
    );
    let run = calc_total_patch_stats(99, None, &cfg, Herb::Ranarr, &client).unwrap();
    assert_eq!(run.grimy_herb_price, None);
    assert_eq!(run.expected_profit, -30200);
}

#[test]
fn test_listed_item_without_trades_has_no_price() {
    let mut prices = HashMap::new();
    prices.insert(
        Herb::Guam.seed_item_id(),
        ItemPrice {
            high: None,
            high_time: None,
            low: None,
            low_time: None,
        },
    );
    let client = WikiItemClient::new(Vec::new(), prices);
    assert_eq!(client.get_avg_price(Herb::Guam.seed_item_id()), None);
    assert_eq!(client.get_avg_price(Herb::Guam.grimy_herb_item_id()), None);
    let stats = HerbPatch::Weiss
        .calc_patch_stats(9, None, &bare(vec![HerbPatch::Weiss]), Herb::Guam, &client)
        .unwrap();
    assert_eq!(stats.seed_price, None);
    assert_eq!(stats.expected_profit, 0);
}

#[test]
fn test_compost_price() {
    let client = market(Herb::Guam);
    let mut cfg = bare(Vec::new());
    assert_eq!(HerbPatch::calc_compost_price(&cfg, &client), 0);
    cfg.bottomless_bucket = true;
    assert_eq!(HerbPatch::calc_compost_price(&cfg, &client), 0);
    cfg.compost = Some(Compost::Supercompost);
    assert_eq!(HerbPatch::calc_compost_price(&cfg, &client), 200);
    cfg.bottomless_bucket = false;
    assert_eq!(HerbPatch::calc_compost_price(&cfg, &client), 400);
    // floor of a half
    let mut prices = HashMap::new();
    prices.insert(Compost::Normal.item_id(), traded_at(23));
    let odd = WikiItemClient::new(Vec::new(), prices);
    cfg.compost = Some(Compost::Normal);
    cfg.bottomless_bucket = true;
    assert_eq!(HerbPatch::calc_compost_price(&cfg, &odd), 11);
    // compost that is not traded is free
    cfg.compost = Some(Compost::Ultracompost);
    assert_eq!(HerbPatch::calc_compost_price(&cfg, &odd), 0);
}

#[test]
fn test_rune_cost() {
    assert_eq!(Spell::ResurrectCrops.rune_cost(&market(Herb::Guam)), 5325);
    // a rune without a price is free
    let mut prices = HashMap::new();
    prices.insert(Rune::Nature.item_id(), traded_at(100));
    let client = WikiItemClient::new(Vec::new(), prices);
    assert_eq!(Spell::ResurrectCrops.rune_cost(&client), 1200);
    assert_eq!(
        Spell::ResurrectCrops.runes(),
        vec![
            (Rune::Earth, 25),
            (Rune::Nature, 12),
            (Rune::Blood, 8),
            (Rune::Soul, 8)
        ]
    );
}

#[test]
fn test_every_bonus_at_once() {
    let cfg = well_equipped(every_patch());
    let client = market(Herb::Torstol);
    let figures = |patch: HerbPatch| {
        patch
            .calc_patch_stats(85, Some(90), &cfg, Herb::Torstol, &client)
            .unwrap()
    };
    assert_stats(
        &figures(HerbPatch::Ardougne),
        (28609375, 29360128),
        (144027, 2097152),
        (28609375, 3096576),
        (3653760885707, 1585446912),
        34108,
    );
    assert_stats(
        &figures(HerbPatch::Catherby),
        (28609375, 29360128),
        (144027, 2097152),
        (85828125, 8544256),
        (21746687406309, 8749318144),
        39750,
    );
    assert_stats(
        &figures(HerbPatch::FarmingGuild),
        (28609375, 29360128),
        (144027, 2097152),
        (85828125, 9060352),
        (10934224517439, 4638900224),
        35745,
    );
    assert_stats(
        &figures(HerbPatch::Hosidius),
        (1, 1),
        (0, 1),
        (768, 79),
        (382041, 158),
        37850,
    );
    assert_stats(
        &figures(HerbPatch::Weiss),
        (1, 1),
        (0, 1),
        (256, 27),
        (127661, 54),
        36170,
    );
}

#[test]
fn test_run_over_every_patch() {
    let cfg = well_equipped(every_patch());
    let client = market(Herb::Torstol);
    let run = calc_total_patch_stats(85, Some(90), &cfg, Herb::Torstol, &client).unwrap();
    assert_stats(
        &run,
        (14429813, 14680064),
        (432081, 1048576),
        (1034672219611, 12149932032),
        (65961935502176137, 3110382600192),
        322117,
    );
    assert_eq!(run.seed_price, Some(30000));
    assert_eq!(run.grimy_herb_price, Some(7000));
}

#[test]
fn test_run_with_a_patch_listed_twice() {
    let cfg = FarmingHerbsConfig {
        compost: Some(Compost::Normal),
        anima_plant: Some(AnimaPlant::Iasor),
        kandarin_diary: Some(AchievementDiaryLevel::Medium),
        ..bare(vec![
            HerbPatch::Catherby,
            HerbPatch::Ardougne,
            HerbPatch::Ardougne,
        ])
    };
    let client = market(Herb::Ranarr);
    let catherby = HerbPatch::Catherby
        .calc_patch_stats(33, None, &cfg, Herb::Ranarr, &client)
        .unwrap();
    assert_stats(
        &catherby,
        (250047, 262144),
        (0, 1),
        (83349, 17152),
        (3371636655, 17563648),
        3616,
    );
    let run = calc_total_patch_stats(33, None, &cfg, Herb::Ranarr, &client).unwrap();
    assert_stats(
        &run,
        (250047, 262144),
        (0, 1),
        (7203735, 497408),
        (291844871289, 509345792),
        10176,
    );
}

fn value(r: Ratio) -> f64 {
    r.numer() as f64 / r.denom() as f64
}

#[test]
fn test_run_is_mean_of_survival_and_sum_of_the_rest() {
    let cfg = well_equipped(every_patch());
    let client = market(Herb::Snapdragon);
    let run = calc_total_patch_stats(70, Some(80), &cfg, Herb::Snapdragon, &client).unwrap();
    let each: Vec<PatchStats> = cfg
        .patches
        .iter()
        .map(|patch| {
            patch
                .calc_patch_stats(70, Some(80), &cfg, Herb::Snapdragon, &client)
                .unwrap()
        })
        .collect();
    let lowest = each
        .iter()
        .map(|s| value(s.survival_chance))
        .fold(f64::INFINITY, f64::min);
    let highest = each
        .iter()
        .map(|s| value(s.survival_chance))
        .fold(0.0, f64::max);
    assert!(lowest <= value(run.survival_chance) && value(run.survival_chance) <= highest);
    assert!(lowest < highest);
    let leaves: f64 = each.iter().map(|s| value(s.expected_yield)).sum();
    let xp: f64 = each.iter().map(|s| value(s.expected_xp)).sum();
    let casts: f64 = each.iter().map(|s| value(s.resurrect_cast_chance)).sum();
    assert!((value(run.expected_yield) - leaves).abs() < 1e-9);
    assert!((value(run.expected_xp) - xp).abs() < 1e-6);
    assert!((value(run.resurrect_cast_chance) - casts).abs() < 1e-9);
    assert_eq!(
        run.expected_profit,
        each.iter().map(|s| s.expected_profit).sum::<i128>()
    );
}

#[test]
fn test_rescue_never_lowers_survival() {
    for compost in [None, Some(Compost::Normal), Some(Compost::Ultracompost)] {
        for patch in every_patch() {
            let without = bare(vec![patch]);
            let without = FarmingHerbsConfig { compost, ..without };
            let with = FarmingHerbsConfig {
                resurrect_crops: true,
                ..without.clone()
            };
            let (plain, _) = patch.calc_survival_chance(None, &without).unwrap();
            for magic in 78..=99 {
                let (rescued, _) = patch.calc_survival_chance(Some(magic), &with).unwrap();
                // compare the fractions exactly, by cross-multiplying
                assert!(
                    rescued.numer() * plain.denom() >= plain.numer() * rescued.denom(),
                    "{:?} {:?} {}",
                    patch,
                    compost,
                    magic
                );
            }
        }
    }
}

#[test]
fn test_yield_never_falls_as_the_level_rises() {
    let cfg = well_equipped(every_patch());
    for herb in [Herb::Guam, Herb::Ranarr, Herb::Torstol] {
        for patch in every_patch() {
            let mut last = ratio(0, 1);
            for level in 1..=99 {
                let leaves = patch.calc_expected_yield(&cfg, level, herb);
                assert!(leaves.numer() * last.denom() >= last.numer() * leaves.denom());
                // at least as many leaves as harvest lives
                assert!(leaves.numer() >= 6 * leaves.denom());
                last = leaves;
            }
        }
    }
}

#[test]
fn test_chance_to_save_at_threshold_levels() {
    let secateurs = FarmingHerbsConfig {
        magic_secateurs: true,
        ..bare(Vec::new())
    };
    let everything = FarmingHerbsConfig {
        magic_secateurs: true,
        farming_cape: true,
        kandarin_diary: Some(AchievementDiaryLevel::Elite),
        anima_plant: Some(AnimaPlant::Attas),
        ..bare(Vec::new())
    };
    let plain = [
        (1, (43, 256)),
        (32, (57, 256)),
        (50, (65, 256)),
        (98, (87, 256)),
        (99, (89, 256)),
    ];
    for (level, (num, den)) in plain {
        assert_eq!(
            HerbPatch::Ardougne.calc_chance_to_save(&secateurs, level, Herb::Ranarr),
            ratio(num, den)
        );
    }
    let stacked = [
        (1, (17, 128)),
        (32, (29, 128)),
        (50, (71, 256)),
        (98, (109, 256)),
        (99, (111, 256)),
    ];
    for (level, (num, den)) in stacked {
        assert_eq!(
            HerbPatch::Catherby.calc_chance_to_save(&everything, level, Herb::Guam),
            ratio(num, den)
        );
    }
}

#[test]
fn test_disease_chance_by_compost_and_iasor() {
    // survival without rescue is (1 - n/128)^3
    let cube = |n: u128| ratio((128 - n) * (128 - n) * (128 - n), 128 * 128 * 128);
    let cases = [
        (None, None, 27),
        (Some(Compost::Normal), None, 14),
        (Some(Compost::Supercompost), None, 6),
        (Some(Compost::Ultracompost), None, 3),
        (None, Some(AnimaPlant::Iasor), 5),
        (Some(Compost::Normal), Some(AnimaPlant::Iasor), 2),
        (Some(Compost::Supercompost), Some(AnimaPlant::Iasor), 1),
        // never less than one 128th
        (Some(Compost::Ultracompost), Some(AnimaPlant::Iasor), 1),
        (Some(Compost::Ultracompost), Some(AnimaPlant::Attas), 3),
        (None, Some(AnimaPlant::Kronos), 27),
    ];
    for (compost, anima_plant, n) in cases {
        let cfg = FarmingHerbsConfig {
            compost,
            anima_plant,
            ..bare(Vec::new())
        };
        let (survival, cast) = HerbPatch::Falador.calc_survival_chance(None, &cfg).unwrap();
        assert_eq!(survival, cube(n));
        assert_eq!(cast, ratio(0, 1));
    }
}

#[test]
fn test_patch_bonuses() {
    let mut cfg = bare(Vec::new());
    for patch in every_patch() {
        assert_eq!(patch.chance_to_save_bonus(&cfg), ratio(0, 1));
        assert_eq!(patch.xp_bonus(&cfg), ratio(0, 1));
    }
    let tiers = [
        (AchievementDiaryLevel::Easy, ratio(0, 1)),
        (AchievementDiaryLevel::Medium, ratio(1, 20)),
        (AchievementDiaryLevel::Hard, ratio(1, 10)),
        (AchievementDiaryLevel::Elite, ratio(3, 20)),
    ];
    for (tier, bonus) in tiers {
        cfg.kandarin_diary = Some(tier);
        assert_eq!(HerbPatch::Catherby.chance_to_save_bonus(&cfg), bonus);
        assert_eq!(HerbPatch::Ardougne.chance_to_save_bonus(&cfg), ratio(0, 1));
    }
    let kourend = [
        (AchievementDiaryLevel::Easy, ratio(0, 1)),
        (AchievementDiaryLevel::Medium, ratio(0, 1)),
        (AchievementDiaryLevel::Hard, ratio(1, 20)),
        (AchievementDiaryLevel::Elite, ratio(1, 20)),
    ];
    for (tier, bonus) in kourend {
        cfg.kourend_diary = Some(tier);
        assert_eq!(HerbPatch::FarmingGuild.chance_to_save_bonus(&cfg), bonus);
        assert_eq!(HerbPatch::Hosidius.chance_to_save_bonus(&cfg), bonus);
    }
    let falador = [
        (AchievementDiaryLevel::Easy, ratio(0, 1)),
        (AchievementDiaryLevel::Medium, ratio(1, 10)),
        (AchievementDiaryLevel::Hard, ratio(1, 10)),
        (AchievementDiaryLevel::Elite, ratio(1, 10)),
    ];
    for (tier, bonus) in falador {
        cfg.falador_diary = Some(tier);
        assert_eq!(HerbPatch::Falador.xp_bonus(&cfg), bonus);
        assert_eq!(HerbPatch::Catherby.xp_bonus(&cfg), ratio(0, 1));
    }
}

#[test]
fn test_config_figures() {
    let mut cfg = bare(Vec::new());
    assert_eq!(cfg.harvest_lives(), 3);
    assert_eq!(cfg.compost_xp(), ratio(0, 1));
    assert_eq!(cfg.calc_item_chance_to_save(), ratio(0, 1));
    cfg.compost = Some(Compost::Normal);
    assert_eq!(cfg.harvest_lives(), 4);
    assert_eq!(cfg.compost_xp(), ratio(18, 1));
    cfg.compost = Some(Compost::Supercompost);
    assert_eq!(cfg.harvest_lives(), 5);
    assert_eq!(cfg.compost_xp(), ratio(26, 1));
    cfg.compost = Some(Compost::Ultracompost);
    assert_eq!(cfg.harvest_lives(), 6);
    assert_eq!(cfg.compost_xp(), ratio(36, 1));
    cfg.magic_secateurs = true;
    assert_eq!(cfg.calc_item_chance_to_save(), ratio(1, 10));
    cfg.farming_cape = true;
    assert_eq!(cfg.calc_item_chance_to_save(), ratio(3, 20));
    cfg.magic_secateurs = false;
    assert_eq!(cfg.calc_item_chance_to_save(), ratio(1, 20));
}

#[test]
fn test_herb_tables() {
    assert_eq!(Herb::Guam.farming_level(), 9);
    assert_eq!(Herb::Ranarr.farming_level(), 32);
    assert_eq!(Herb::Torstol.farming_level(), 85);
    assert_eq!(Herb::Ranarr.chance_to_save(), (39, 80));
    assert_eq!(Herb::Torstol.chance_to_save(), (71, 80));
    assert_eq!(Herb::Marrentill.xp_per_plant(), ratio(27, 2));
    assert_eq!(Herb::Ranarr.xp_per_plant(), ratio(27, 1));
    assert_eq!(Herb::Ranarr.xp_per_harvest(), ratio(61, 2));
    assert_eq!(Herb::Torstol.xp_per_harvest(), ratio(449, 2));
    assert_ne!(
        Herb::Goutweed.grimy_herb_item_id(),
        Herb::Goutweed.seed_item_id()
    );
}

#[test]
fn test_diary_tiers_are_ordered() {
    let tiers = [
        AchievementDiaryLevel::Easy,
        AchievementDiaryLevel::Medium,
        AchievementDiaryLevel::Hard,
        AchievementDiaryLevel::Elite,
    ];
    for (i, low) in tiers.iter().enumerate() {
        for (j, high) in tiers.iter().enumerate() {
            assert_eq!(high.at_least(*low), j >= i);
            assert_eq!(high >= low, j >= i);
        }
    }
}

#[test]
fn test_levels_beyond_99_follow_the_same_curve() {
    let cfg = bare(vec![HerbPatch::Ardougne]);
    let client = market(Herb::Ranarr);
    assert_eq!(
        HerbPatch::Ardougne.calc_chance_to_save(&cfg, 120, Herb::Ranarr),
        ratio(89, 256)
    );
    assert!(HerbPatch::Ardougne.is_harvest_ending(&cfg, 120, Herb::Ranarr));
    let stats = HerbPatch::Ardougne
        .calc_patch_stats(120, None, &cfg, Herb::Ranarr, &client)
        .unwrap();
    assert_stats(
        &stats,
        (1030301, 2097152),
        (0, 1),
        (3090903, 1368064),
        (28779397833, 350224384),
        -14185,
    );
}

#[test]
fn test_harvest_ends_while_a_life_can_still_be_lost() {
    let cfg = bare(vec![HerbPatch::Ardougne]);
    let client = market(Herb::Ranarr);
    for level in [1, 32, 99, 126, 517] {
        assert!(HerbPatch::Ardougne.is_harvest_ending(&cfg, level, Herb::Ranarr));
        assert!(osrs_cli::run::do_harvests_end(&cfg, level, Herb::Ranarr));
    }
    // the last level at which a pick can still use up a life
    assert_eq!(
        HerbPatch::Ardougne.calc_chance_to_save(&cfg, 517, Herb::Ranarr),
        ratio(255, 256)
    );
    let run = calc_total_patch_stats(517, None, &cfg, Herb::Ranarr, &client).unwrap();
    assert_stats(
        &run,
        (1030301, 2097152),
        (0, 1),
        (3090903, 8192),
        (24161588751, 2097152),
        2611152,
    );
    for level in [518, 1000, usize::MAX] {
        assert!(!HerbPatch::Ardougne.is_harvest_ending(&cfg, level, Herb::Ranarr));
        assert!(!osrs_cli::run::do_harvests_end(&cfg, level, Herb::Ranarr));
        assert!(!osrs_cli::herbs::does_every_harvest_end(&cfg, level));
    }
    // without a patch there is no harvest that could fail to end
    assert!(osrs_cli::run::do_harvests_end(&bare(Vec::new()), 518, Herb::Ranarr));
}

#[test]
fn test_every_harvest_ends_up_to_99() {
    let cfg = well_equipped(every_patch());
    for level in 1..=99 {
        assert!(osrs_cli::herbs::does_every_harvest_end(&cfg, level));
    }
    // Guam is the first herb whose harvest would never end
    assert!(osrs_cli::herbs::does_every_harvest_end(&bare(vec![HerbPatch::Ardougne]), 410));
    assert!(!osrs_cli::herbs::does_every_harvest_end(&bare(vec![HerbPatch::Ardougne]), 411));
}

#[test]
fn test_run_at_level_126_with_every_bonus() {
    let cfg = well_equipped(vec![HerbPatch::Ardougne, HerbPatch::Catherby, HerbPatch::Weiss]);
    let client = market(Herb::Torstol);
    let run = calc_total_patch_stats(126, Some(99), &cfg, Herb::Torstol, &client).unwrap();
    assert_stats(
        &run,
        (4142893, 4194304),
        (144027, 1048576),
        (2752412583, 91959296),
        (1397168645307243, 188332638208),
        118184,
    );
}
