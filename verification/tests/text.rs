use osrs_cli::commands::{
    level_source, Boost, CalcFarmHerbCommand, CalcStewCommand, ConfigSetHerbCommand, Doses,
    HerbQuestions, HiscoreCommand, LevelSource, PingCommand, PriceCommand, WikiCommand,
};
use osrs_cli::config::{FarmingHerbsConfig, OsrsConfig};
use osrs_cli::diary::AchievementDiaryLevel;
use osrs_cli::drops::{parse_target_range, TargetRange};
use osrs_cli::error::{FarmError, OsrsError};
use osrs_cli::farm::HerbPatch;
use osrs_cli::fmt::{fmt_int, fmt_price};
use osrs_cli::herbs::{best_profit, calc_herb_stats, profit_style, ProfitStyle};
use osrs_cli::hiscore::{retain_ranked, HiscoreActivity, HiscorePlayer, HiscoreSkill};
use osrs_cli::http::url;
use osrs_cli::item::{Item, ItemPrice, WikiItemClient};
use osrs_cli::farm::Herb;
use osrs_cli::prices;
use osrs_cli::skill::Skill;
use osrs_cli::text::join_words;
use std::collections::HashMap;

fn words(list: &[&str]) -> Vec<String> {
    list.iter().map(|w| w.to_string()).collect()
}

#[test]
fn test_fmt_int_groups_digits() {
    assert_eq!(fmt_int(0), "0");
    assert_eq!(fmt_int(7), "7");
    assert_eq!(fmt_int(999), "999");
    assert_eq!(fmt_int(1000), "1,000");
    assert_eq!(fmt_int(1005), "1,005");
    assert_eq!(fmt_int(100200), "100,200");
    assert_eq!(fmt_int(1234567), "1,234,567");
    assert_eq!(fmt_int(2147483647), "2,147,483,647");
}

#[test]
fn test_fmt_price() {
    assert_eq!(fmt_price(Some(30000)), "30,000");
    assert_eq!(fmt_price(Some(0)), "0");
    assert_eq!(fmt_price(None), "\u{2014}");
}

#[test]
fn test_join_words() {
    assert_eq!(join_words(&words(&[]), ", "), "");
    assert_eq!(join_words(&words(&["one"]), ", "), "one");
    assert_eq!(join_words(&words(&["one", "two", "three"]), ", "), "one, two, three");
    assert_eq!(join_words(&words(&["", ""]), "-"), "-");
}

#[test]
fn test_patch_names() {
    assert_eq!(HerbPatch::Ardougne.to_string(), "Ardougne");
    assert_eq!(HerbPatch::FarmingGuild.to_string(), "Farming Guild");
    assert_eq!(HerbPatch::HarmonyIsland.to_string(), "Harmony Island");
    assert_eq!(HerbPatch::PortPhasmatys.to_string(), "Port Phasmatys");
    assert_eq!(HerbPatch::TrollStronghold.name(), "Troll Stronghold");
}

#[test]
fn test_patch_descriptions() {
    let mut cfg = FarmingHerbsConfig::default();
    assert_eq!(HerbPatch::Ardougne.description(&cfg), "Ardougne");
    assert_eq!(HerbPatch::Hosidius.description(&cfg), "Hosidius");
    assert_eq!(HerbPatch::Weiss.description(&cfg), "Weiss (disease-free)");
    assert_eq!(
        HerbPatch::TrollStronghold.description(&cfg),
        "Troll Stronghold (disease-free)"
    );
    cfg.hosidius_fifty_favor = true;
    cfg.kourend_diary = Some(AchievementDiaryLevel::Hard);
    cfg.kandarin_diary = Some(AchievementDiaryLevel::Elite);
    cfg.falador_diary = Some(AchievementDiaryLevel::Medium);
    assert_eq!(
        HerbPatch::Hosidius.description(&cfg),
        "Hosidius (disease-free, +5% yield)"
    );
    assert_eq!(
        HerbPatch::FarmingGuild.description(&cfg),
        "Farming Guild (+5% yield)"
    );
    assert_eq!(HerbPatch::Catherby.description(&cfg), "Catherby (+15% yield)");
    assert_eq!(HerbPatch::Falador.description(&cfg), "Falador (+10% XP)");
    cfg.kandarin_diary = Some(AchievementDiaryLevel::Hard);
    assert_eq!(HerbPatch::Catherby.description(&cfg), "Catherby (+10% yield)");
    cfg.kandarin_diary = Some(AchievementDiaryLevel::Easy);
    assert_eq!(HerbPatch::Catherby.description(&cfg), "Catherby");
    assert_eq!(
        HerbPatch::Hosidius.modifiers(&cfg),
        words(&["disease-free", "+5% yield"])
    );
}

#[test]
fn test_error_texts() {
    assert_eq!(
        OsrsError::ArgsError("No player given".to_string()).to_string(),
        "Argument error: No player given"
    );
    assert_eq!(
        OsrsError::UnknownSkill("sailing".to_string()).to_string(),
        "Unknown skill: sailing"
    );
    assert_eq!(
        OsrsError::InvalidLevel(4096).to_string(),
        "Invalid level. Must be between 1 and 127, got: 4096"
    );
    assert_eq!(
        OsrsError::InvalidConfig("no".to_string()).to_string(),
        "Invalid configuration: no"
    );
    assert_eq!(
        FarmError::MagicLevelTooLow {
            required: 78,
            actual: 60
        }
        .to_string(),
        "Resurrect Crops requires level 78, but player has level 60"
    );
    let no_patches = OsrsError::from_farm_error(FarmError::NoPatches);
    assert_eq!(
        no_patches.to_string(),
        "Missing configuration for farming.herbs.patches. \
         Configure your herb patches to use this calculator."
    );
    assert!(matches!(
        OsrsError::from_farm_error(FarmError::MagicLevelMissing),
        OsrsError::InvalidConfig(_)
    ));
    assert_eq!(
        OsrsError::from_farm_error(FarmError::MagicLevelTooLow {
            required: 78,
            actual: 1
        })
        .to_string(),
        "Invalid configuration: Resurrect Crops requires level 78, but player has level 1"
    );
}

fn player() -> HiscorePlayer {
    HiscorePlayer::new(
        vec![
            HiscoreSkill {
                name: Skill::Total,
                rank: 5,
                level: 2277,
                xp: 4_600_000_000,
            },
            HiscoreSkill {
                name: Skill::Farming,
                rank: 12,
                level: 99,
                xp: 200_000_000,
            },
            HiscoreSkill {
                name: Skill::Farming,
                rank: 13,
                level: 1,
                xp: 0,
            },
        ],
        vec![
            HiscoreActivity {
                name: "Zulrah".to_string(),
                rank: 40,
                score: 1200,
            },
            HiscoreActivity {
                name: "Vorkath".to_string(),
                rank: -1,
                score: -1,
            },
            HiscoreActivity {
                name: "Clue Scrolls (all)".to_string(),
                rank: 0,
                score: 3,
            },
        ],
    )
}

#[test]
fn test_hiscore_skill_lookup() {
    let player = player();
    assert_eq!(player.skill(Skill::Total).unwrap().level, 2277);
    // the first entry of a skill is the one that counts
    assert_eq!(player.skill(Skill::Farming).unwrap().rank, 12);
    assert!(player.skill(Skill::Magic).is_none());
}

#[test]
fn test_unranked_activities_are_dropped() {
    let player = player();
    let names: Vec<&str> = player.activities.iter().map(|a| a.name.as_str()).collect();
    assert_eq!(names, vec!["Zulrah", "Clue Scrolls (all)"]);
    assert!(retain_ranked(Vec::new()).is_empty());
}

fn config(default_player: Option<&str>) -> OsrsConfig {
    OsrsConfig {
        default_player: default_player.map(|p| p.to_string()),
        ..OsrsConfig::default()
    }
}

#[test]
fn test_username() {
    let named = HiscoreCommand {
        username: words(&["Iron", "Man"]),
    };
    assert_eq!(named.username(&config(Some("Zezima"))).unwrap(), "Iron Man");
    let unnamed = HiscoreCommand {
        username: Vec::new(),
    };
    assert_eq!(unnamed.username(&config(Some("Zezima"))).unwrap(), "Zezima");
    assert_eq!(
        unnamed.username(&config(None)).unwrap_err().to_string(),
        "Argument error: No player given"
    );
}

#[test]
fn test_level_source() {
    let cfg = config(Some("Zezima"));
    assert!(matches!(
        level_source(&cfg, &words(&["Lynx"]), Some(80)),
        Ok(LevelSource::Given(80))
    ));
    match level_source(&cfg, &words(&["Lynx", "Titan"]), None) {
        Ok(LevelSource::Player(name)) => assert_eq!(name, "Lynx Titan"),
        other => panic!("{:?}", other),
    }
    match level_source(&cfg, &Vec::new(), None) {
        Ok(LevelSource::Player(name)) => assert_eq!(name, "Zezima"),
        other => panic!("{:?}", other),
    }
    assert!(level_source(&config(None), &Vec::new(), None).is_err());
    assert!(level_source(&config(None), &Vec::new(), Some(1)).is_ok());
}

#[test]
fn test_magic_level_is_looked_up_only_for_the_spell() {
    let command = CalcFarmHerbCommand {
        farming_level: Some(50),
        magic_level: None,
        player: Vec::new(),
    };
    let mut cfg = config(None);
    assert!(matches!(
        command.farming_level_source(&cfg),
        Ok(LevelSource::Given(50))
    ));
    assert!(matches!(command.magic_level_source(&cfg), Ok(None)));
    cfg.farming.herbs.resurrect_crops = true;
    assert!(command.magic_level_source(&cfg).is_err());
    let given = CalcFarmHerbCommand {
        magic_level: Some(80),
        ..command
    };
    assert!(matches!(
        given.magic_level_source(&cfg),
        Ok(Some(LevelSource::Given(80)))
    ));
}

#[test]
fn test_skill_words() {
    assert_eq!(Skill::from_str("Farming").unwrap(), Skill::Farming);
    assert_eq!(Skill::from_str("farm").unwrap(), Skill::Farming);
    assert_eq!(Skill::from_str("FARM").unwrap(), Skill::Farming);
    assert_eq!(Skill::from_str("defense").unwrap(), Skill::Defence);
    assert_eq!(Skill::from_str("def").unwrap(), Skill::Defence);
    assert_eq!(Skill::from_str("rc").unwrap(), Skill::Runecrafting);
    assert_eq!(Skill::from_str("herb").unwrap(), Skill::Herblore);
    assert_eq!(Skill::from_str("total").unwrap(), Skill::Total);
    assert_eq!(Skill::from_str("cons").unwrap(), Skill::Construction);
    assert_eq!(
        Skill::from_str("Sailing").unwrap_err().to_string(),
        "Unknown skill: Sailing"
    );
    assert!(Skill::from_str("").is_err());
    for skill in Skill::all() {
        assert_eq!(Skill::from_str(&skill.to_string()).unwrap(), skill);
        for word in skill.words() {
            assert_eq!(Skill::from_str(&word).unwrap(), skill);
        }
    }
}

fn item(id: usize, name: &str) -> Item {
    Item {
        id,
        name: name.to_string(),
        examine: "An item.".to_string(),
        members: true,
        low_alch: None,
        high_alch: Some(3),
        limit: None,
        value: 5,
    }
}

fn shop() -> WikiItemClient {
    let mut prices = HashMap::new();
    prices.insert(
        207,
        ItemPrice {
            high: Some(7000),
            high_time: Some(1),
            low: Some(6900),
            low_time: Some(2),
        },
    );
    WikiItemClient::new(
        vec![
            item(207, "Grimy ranarr weed"),
            item(5295, "Ranarr seed"),
            item(257, "Ranarr weed"),
            item(995, "Coins"),
        ],
        prices,
    )
}

#[test]
fn test_search_ignores_case() {
    let found: Vec<usize> = shop().search("RANARR").iter().map(|i| i.id).collect();
    assert_eq!(found, vec![207, 5295, 257]);
    let found: Vec<usize> = shop().search("ranarr w").iter().map(|i| i.id).collect();
    assert_eq!(found, vec![207, 257]);
    assert!(shop().search("dragon").is_empty());
    assert_eq!(shop().search("").len(), 4);
    assert_eq!(shop().search("oin")[0].examine, "An item.");
}

#[test]
fn test_search_prices() {
    let found = shop().search_prices("ranarr");
    assert_eq!(found.len(), 3);
    assert_eq!(found[0].item.name, "Grimy ranarr weed");
    assert_eq!(found[0].price.unwrap().avg(), Some(6950));
    assert!(found[1].price.is_none());
    assert!(found[2].price.is_none());
    let rows = PriceCommand::rows(&found);
    assert_eq!(rows.len(), 1);
    assert_eq!(rows[0].0, "Grimy ranarr weed");
    assert_eq!(rows[0].1.low, Some(6900));
    let command = PriceCommand {
        query: words(&["ranarr", "seed"]),
    };
    assert_eq!(command.query(), "ranarr seed");
}

#[test]
fn test_latest_high_price() {
    let mut table = HashMap::new();
    table.insert(
        4151,
        prices::Item {
            high: Some(1_500_000),
            high_time: Some(9),
            low: Some(1_400_000),
            low_time: Some(8),
        },
    );
    table.insert(
        11802,
        prices::Item {
            high: None,
            high_time: None,
            low: Some(9),
            low_time: Some(8),
        },
    );
    assert_eq!(prices::Item::latest_high_price(&table, 4151), Some(1_500_000));
    assert_eq!(prices::Item::latest_high_price(&table, 11802), None);
    assert_eq!(prices::Item::latest_high_price(&table, 1), None);
    assert_eq!(prices::Item::load(&table, 4151).unwrap().low, Some(1_400_000));
    assert!(prices::Item::load(&table, 2).is_none());
}

#[test]
fn test_url_encodes_values() {
    let params = vec![
        ("search".to_string(), "abyssal whip".to_string()),
        ("x".to_string(), "a-b_c.d~e/f?g=h&i%j".to_string()),
        ("y".to_string(), "\u{e9}\u{20ac}".to_string()),
    ];
    assert_eq!(
        url("https://example.com/", &params),
        "https://example.com/?search=abyssal%20whip,x=a-b_c.d~e%2Ff%3Fg%3Dh%26i%25j,y=%C3%A9%E2%82%AC"
    );
    assert_eq!(url("https://example.com/", &Vec::new()), "https://example.com/?");
}

#[test]
fn test_wiki_url() {
    let command = WikiCommand {
        query: words(&["dragon", "scimitar"]),
    };
    assert_eq!(command.query(), "dragon scimitar");
    assert_eq!(
        command.url(),
        "https://oldschool.runescape.wiki/?search=dragon%20scimitar"
    );
}

#[test]
fn test_ping() {
    let ping = PingCommand {
        world: 302,
        count: Some(4),
    };
    assert_eq!(ping.hostname().unwrap(), "oldschool2.runescape.com");
    assert_eq!(ping.count_args(false), words(&["-c", "4"]));
    assert_eq!(ping.count_args(true), words(&["-n", "4"]));
    let forever = PingCommand {
        world: 301,
        count: None,
    };
    assert_eq!(forever.hostname().unwrap(), "oldschool1.runescape.com");
    assert_eq!(forever.count_args(false), Vec::<String>::new());
    assert_eq!(forever.count_args(true), words(&["-n", "-1"]));
    let nowhere = PingCommand {
        world: 300,
        count: None,
    };
    assert_eq!(
        nowhere.hostname().unwrap_err().to_string(),
        "Argument error: Invalid world: Must be at least 301"
    );
}

#[test]
fn test_stew() {
    assert_eq!(Boost::from_index(0), Boost(1));
    assert_eq!(Boost(5).to_index(), 4);
    assert_eq!(Doses::from_index(2), Doses(3));
    assert_eq!(Doses(1).to_index(), 0);
    let stew = CalcStewCommand {
        boost: 5,
        total_doses: 20,
    };
    assert_eq!(stew.boost().unwrap(), Boost(5));
    assert_eq!(stew.total_stews(Doses(3)), 6);
    assert_eq!(stew.total_stews(Doses(1)), 20);
    let greedy = CalcStewCommand {
        boost: 6,
        total_doses: 20,
    };
    assert_eq!(
        greedy.boost().unwrap_err().to_string(),
        "Argument error: Maximum boost is 5 levels"
    );
}

#[test]
fn test_herb_questions() {
    assert_eq!(
        ConfigSetHerbCommand::questions(&vec![HerbPatch::Ardougne, HerbPatch::Weiss]),
        HerbQuestions {
            falador_diary: false,
            kandarin_diary: false,
            kourend_diary: false,
            hosidius_favor: false,
        }
    );
    assert_eq!(
        ConfigSetHerbCommand::questions(&vec![HerbPatch::FarmingGuild, HerbPatch::Falador]),
        HerbQuestions {
            falador_diary: true,
            kandarin_diary: false,
            kourend_diary: true,
            hosidius_favor: false,
        }
    );
    assert_eq!(
        ConfigSetHerbCommand::questions(&vec![HerbPatch::Hosidius, HerbPatch::Catherby]),
        HerbQuestions {
            falador_diary: false,
            kandarin_diary: true,
            kourend_diary: true,
            hosidius_favor: true,
        }
    );
}

#[test]
fn test_target_range() {
    assert_eq!(parse_target_range("3").unwrap(), TargetRange::Eq(3));
    assert_eq!(parse_target_range("1+").unwrap(), TargetRange::Gte(1));
    assert_eq!(parse_target_range("12-").unwrap(), TargetRange::Lte(12));
    assert_eq!(parse_target_range("007").unwrap(), TargetRange::Eq(7));
    assert_eq!(
        parse_target_range(&usize::MAX.to_string()).unwrap(),
        TargetRange::Eq(usize::MAX)
    );
    for wrong in [
        "", "+", "-", "1++", "+1", "-1", "1 +", " 1", "1.5", "a", "1a",
        "99999999999999999999999999", "\u{663}",
    ] {
        assert_eq!(
            parse_target_range(wrong).unwrap_err().to_string(),
            format!("Argument error: Invalid target range: {}", wrong)
        );
    }
    assert_eq!(TargetRange::Eq(3).as_values(10), vec![3]);
    assert_eq!(TargetRange::Lte(3).as_values(10), vec![0, 1, 2, 3]);
    assert_eq!(TargetRange::Gte(8).as_values(10), vec![8, 9, 10]);
    assert_eq!(TargetRange::Gte(11).as_values(10), Vec::<usize>::new());
    assert_eq!(TargetRange::Gte(0).as_values(0), vec![0]);
}

#[test]
fn test_herb_rows() {
    let mut prices = HashMap::new();
    for (herb, price) in [(Herb::Guam, 100), (Herb::Marrentill, 300), (Herb::Tarromin, 290)] {
        prices.insert(
            herb.grimy_herb_item_id(),
            ItemPrice {
                high: Some(price),
                high_time: None,
                low: None,
                low_time: None,
            },
        );
    }
    let client = WikiItemClient::new(Vec::new(), prices);
    let cfg = FarmingHerbsConfig {
        patches: vec![HerbPatch::Weiss],
        ..FarmingHerbsConfig::default()
    };
    let rows = calc_herb_stats(20, None, &cfg, &client).unwrap();
    let herbs: Vec<Herb> = rows.iter().map(|(herb, _)| *herb).collect();
    assert_eq!(herbs, vec![Herb::Guam, Herb::Marrentill, Herb::Tarromin]);
    assert!(calc_herb_stats(8, None, &cfg, &client).unwrap().is_empty());
    assert_eq!(calc_herb_stats(99, None, &cfg, &client).unwrap().len(), 15);
    let best = best_profit(&rows).unwrap();
    let styles: Vec<ProfitStyle> = rows
        .iter()
        .map(|(_, stats)| profit_style(stats.expected_profit, best))
        .collect();
    assert_eq!(
        styles,
        vec![ProfitStyle::Profit, ProfitStyle::Best, ProfitStyle::NearBest]
    );
    assert_eq!(best_profit(&Vec::new()), None);
    assert_eq!(profit_style(-1, 10), ProfitStyle::Loss);
    assert_eq!(profit_style(8, 10), ProfitStyle::NearBest);
    assert_eq!(profit_style(7, 10), ProfitStyle::Profit);
    assert_eq!(profit_style(79, 99), ProfitStyle::Profit);
    assert_eq!(profit_style(80, 99), ProfitStyle::NearBest);
    assert_eq!(profit_style(99, 99), ProfitStyle::Best);
    // nothing to measure by when the best herb makes nothing
    assert_eq!(profit_style(0, 0), ProfitStyle::Profit);
    assert_eq!(profit_style(0, 10), ProfitStyle::Profit);
    assert_eq!(profit_style(-5, -5), ProfitStyle::Loss);
    assert_eq!(profit_style(i128::MAX, i128::MAX), ProfitStyle::Best);
    assert_eq!(profit_style(i128::MAX - 1, i128::MAX), ProfitStyle::NearBest);
    assert_eq!(profit_style(1, i128::MAX), ProfitStyle::Profit);
    assert_eq!(
        calc_herb_stats(20, None, &FarmingHerbsConfig::default(), &client).unwrap_err(),
        FarmError::NoPatches
    );
}

#[test]
fn test_config_in_words() {
    use_config_text();
}

fn use_config_text() {
    let cfg = FarmingHerbsConfig {
        patches: vec![HerbPatch::Catherby, HerbPatch::Weiss],
        magic_secateurs: true,
        compost: Some(osrs_cli::farm::Compost::Ultracompost),
        kandarin_diary: Some(AchievementDiaryLevel::Medium),
        ..FarmingHerbsConfig::default()
    };
    assert_eq!(
        cfg.to_string(),
        "Patches:\n - Catherby (+5% yield)\n - Weiss (disease-free)\n\
         Magic secateurs: Yes\nFarming cape: No\nBottomless bucket: No\n\
         Resurrect crops: No\nCompost: Ultracompost\nAnima plant: None"
    );
    assert_eq!(
        FarmingHerbsConfig::default().to_string(),
        "Patches:\nMagic secateurs: No\nFarming cape: No\nBottomless bucket: No\n\
         Resurrect crops: No\nCompost: None\nAnima plant: None"
    );
}
