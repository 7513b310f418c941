//! The player's saved settings.

use crate::diary::AchievementDiaryLevel;
use crate::farm::{AnimaPlant, Compost, HerbPatch};
use vstd::prelude::*;

verus! {

/// How the player farms herbs: which patches are in use, and every item,
/// spell and unlock that changes what a patch gives.
#[derive(Clone, Debug)]
pub struct FarmingHerbsConfig {
    /// The patches that are planted on each run.
    pub patches: Vec<HerbPatch>,
    /// Magic secateurs are equipped when harvesting.
    pub magic_secateurs: bool,
    /// A farming cape is equipped when harvesting.
    pub farming_cape: bool,
    /// Compost is applied from a bottomless bucket.
    pub bottomless_bucket: bool,
    /// Resurrect Crops is cast on a patch that dies.
    pub resurrect_crops: bool,
    /// The compost applied to every patch.
    pub compost: Option<Compost>,
    /// The anima plant that is alive at the Farming Guild.
    pub anima_plant: Option<AnimaPlant>,
    /// The player has at least 50% Hosidius favour.
    pub hosidius_fifty_favor: bool,
    /// The highest tier completed of the Falador diary.
    pub falador_diary: Option<AchievementDiaryLevel>,
    /// The highest tier completed of the Kandarin diary.
    pub kandarin_diary: Option<AchievementDiaryLevel>,
    /// The highest tier completed of the Kourend & Kebos diary.
    pub kourend_diary: Option<AchievementDiaryLevel>,
}

impl Default for FarmingHerbsConfig {
    /// No patch, no item, no spell and no unlock.
    fn default() -> (cfg: FarmingHerbsConfig)
        ensures
            cfg.patches@.len() == 0,
            !cfg.magic_secateurs,
            !cfg.farming_cape,
            !cfg.bottomless_bucket,
            !cfg.resurrect_crops,
            cfg.compost is None,
            cfg.anima_plant is None,
            !cfg.hosidius_fifty_favor,
            cfg.falador_diary is None,
            cfg.kandarin_diary is None,
            cfg.kourend_diary is None,
    {
        FarmingHerbsConfig {
            patches: Vec::new(),
            magic_secateurs: false,
            farming_cape: false,
            bottomless_bucket: false,
            resurrect_crops: false,
            compost: None,
            anima_plant: None,
            hosidius_fifty_favor: false,
            falador_diary: None,
            kandarin_diary: None,
            kourend_diary: None,
        }
    }
}

/// Settings for the farming calculators.
#[derive(Clone, Debug)]
pub struct FarmingConfig {
    pub herbs: FarmingHerbsConfig,
}

impl Default for FarmingConfig {
    fn default() -> (cfg: FarmingConfig)
        ensures
            cfg.herbs.patches@.len() == 0,
    {
        FarmingConfig { herbs: FarmingHerbsConfig::default() }
    }
}

/// All of the player's settings.
#[derive(Clone, Debug)]
pub struct OsrsConfig {
    /// The player that a command looks up when it is given no name.
    pub default_player: Option<String>,
    /// Settings for the farming calculators.
    pub farming: FarmingConfig,
}

impl Default for OsrsConfig {
    fn default() -> (cfg: OsrsConfig)
        ensures
            cfg.default_player is None,
            cfg.farming.herbs.patches@.len() == 0,
    {
        OsrsConfig { default_player: None, farming: FarmingConfig::default() }
    }
}

} // verus!
