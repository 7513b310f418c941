use osrs_cli::commands::{CalcXpCommand, XpSource};
use osrs_cli::error::OsrsError;
use osrs_cli::skill::Skill;
use osrs_cli::xp::{level_thresholds, level_to_xp, xp_to_level};

#[test]
fn test_level_to_xp() {
    assert_eq!(
        level_to_xp(0).unwrap_err().to_string(),
        "Invalid level. Must be between 1 and 127, got: 0"
    );
    assert_eq!(level_to_xp(1).unwrap(), 0);
    assert_eq!(level_to_xp(2).unwrap(), 83);
    assert_eq!(level_to_xp(92).unwrap(), 6_517_253);
    assert_eq!(level_to_xp(99).unwrap(), 13_034_431);
    assert_eq!(level_to_xp(126).unwrap(), 188_884_740);
    assert_eq!(level_to_xp(127).unwrap(), 208_545_572);
    assert_eq!(
        level_to_xp(128).unwrap_err().to_string(),
        "Invalid level. Must be between 1 and 127, got: 128"
    );
}

#[test]
fn test_xp_to_level() {
    assert_eq!(xp_to_level(0), 1);
    assert_eq!(xp_to_level(1), 1);
    assert_eq!(xp_to_level(82), 1);
    assert_eq!(xp_to_level(83), 2);
    assert_eq!(xp_to_level(37223), 39);
    assert_eq!(xp_to_level(37224), 40);
    assert_eq!(xp_to_level(6_517_253), 92);
    assert_eq!(xp_to_level(13_034_431), 99);
    assert_eq!(xp_to_level(200_000_000), 126);
    assert_eq!(xp_to_level(999_999_999), 127);
}

#[test]
fn test_levels_and_thresholds_agree() {
    let table = level_thresholds();
    assert_eq!(table.len(), 127);
    for level in 1..=127usize {
        let xp = level_to_xp(level).unwrap();
        assert_eq!(xp, table[level - 1]);
        assert_eq!(xp_to_level(xp), level);
        if level > 1 {
            assert_eq!(xp_to_level(xp - 1), level - 1);
        }
    }
}

fn command() -> CalcXpCommand {
    CalcXpCommand {
        source_xp: None,
        source_level: None,
        player: Vec::new(),
        skill: None,
        dest_xp: None,
        dest_level: None,
        plus_xp: None,
    }
}

#[test]
fn test_xp_source() {
    let from_xp = CalcXpCommand {
        source_xp: Some(500),
        ..command()
    };
    assert!(matches!(from_xp.source(), Ok(XpSource::Xp(500))));
    let from_level = CalcXpCommand {
        source_level: Some(99),
        ..command()
    };
    assert!(matches!(from_level.source(), Ok(XpSource::Xp(13_034_431))));
    let bad_level = CalcXpCommand {
        source_level: Some(0),
        ..command()
    };
    assert!(matches!(
        bad_level.source(),
        Err(OsrsError::InvalidLevel(0))
    ));
    let from_player = CalcXpCommand {
        player: vec!["Zezima".to_string()],
        skill: Some(Skill::Farming),
        ..command()
    };
    match from_player.source() {
        Ok(XpSource::Player { player, skill }) => {
            assert_eq!(player, vec!["Zezima".to_string()]);
            assert_eq!(skill, Skill::Farming);
        }
        other => panic!("{:?}", other),
    }
    // the default player may stand in for the name
    let default_player = CalcXpCommand {
        skill: Some(Skill::Magic),
        ..command()
    };
    assert!(matches!(
        default_player.source(),
        Ok(XpSource::Player { .. })
    ));
    for wrong in [
        command(),
        CalcXpCommand {
            source_xp: Some(1),
            source_level: Some(2),
            ..command()
        },
        CalcXpCommand {
            source_xp: Some(1),
            player: vec!["a".to_string()],
            ..command()
        },
        CalcXpCommand {
            source_level: Some(1),
            skill: Some(Skill::Attack),
            ..command()
        },
        CalcXpCommand {
            player: vec!["a".to_string()],
            ..command()
        },
    ] {
        assert_eq!(
            wrong.source().unwrap_err().to_string(),
            "Argument error: Must specify exactly one of \
             --from-xp, --from-lvl, or (--player and --skill)"
        );
    }
}

#[test]
fn test_xp_dest() {
    let to_xp = CalcXpCommand {
        dest_xp: Some(1000),
        plus_xp: Some(5),
        ..command()
    };
    assert_eq!(to_xp.dest(7).unwrap(), 1005);
    let to_level = CalcXpCommand {
        dest_level: Some(2),
        ..command()
    };
    assert_eq!(to_level.dest(7).unwrap(), 83);
    let plus_only = CalcXpCommand {
        plus_xp: Some(usize::MAX),
        ..command()
    };
    assert_eq!(plus_only.dest(7).unwrap(), usize::MAX as u128 + 7);
    let bad_level = CalcXpCommand {
        dest_level: Some(128),
        ..command()
    };
    assert!(matches!(
        bad_level.dest(7),
        Err(OsrsError::InvalidLevel(128))
    ));
    let both = CalcXpCommand {
        dest_xp: Some(1),
        dest_level: Some(2),
        ..command()
    };
    assert_eq!(
        both.dest(7).unwrap_err().to_string(),
        "Argument error: Must specify exactly one of --to-xp or --to-lvl"
    );
    assert!(command().dest(7).is_err());
}
