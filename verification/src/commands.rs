//! The commands and what each of them decides before it touches the world.

use crate::config::OsrsConfig;
use crate::error::OsrsError;
use crate::farm::HerbPatch;
use crate::hiscore::{username_for, HiscorePlayer};
use crate::http::{pair_views, url, url_text};
use crate::item::{ItemPrice, ItemWithPrice};
use crate::skill::Skill;
use crate::text::{decimal, join, join_words, usize_to_string, views};
use crate::xp::{level_to_xp, threshold, MAX_VIRTUAL_LEVEL};
use vstd::prelude::*;
use vstd::string::StringExecFns;

verus! {

/// Searches the wiki and opens the results in a browser.
#[derive(Clone, Debug)]
pub struct WikiCommand {
    /// The words to search for.
    pub query: Vec<String>,
}

impl WikiCommand {
    /// The words to search for, with a space between each two.
    pub fn query(&self) -> (text: String)
        ensures
            text@ == join(views(self.query@), " "@),
    {
        join_words(&self.query, " ")
    }

    /// The address of the search on the wiki.
    pub fn url(&self) -> (text: String)
        ensures
            text@ == url_text(
                "https://oldschool.runescape.wiki/"@,
                seq![("search"@, join(views(self.query@), " "@))],
            ),
    {
        let mut params: Vec<(String, String)> = Vec::new();
        params.push((String::from_str("search"), self.query()));
        assert(pair_views(params@) =~= seq![("search"@, join(views(self.query@), " "@))]);
        url("https://oldschool.runescape.wiki/", &params)
    }
}

/// Pings a world.
#[derive(Copy, Clone, Debug)]
pub struct PingCommand {
    /// The number of the world.
    pub world: usize,
    /// How many pings to send; without a number, pings go on for ever.
    pub count: Option<usize>,
}

/// The lowest number that a world can have.
pub const FIRST_WORLD: usize = 301;

impl PingCommand {
    /// The name of the host of the world.
    pub open spec fn spec_hostname(self) -> Seq<char> {
        "oldschool"@ + decimal((self.world - 300) as nat) + ".runescape.com"@
    }

    /// The name of the host of the world, or an error for a number that no
    /// world has.
    pub fn hostname(&self) -> (r: Result<String, OsrsError>)
        ensures
            self.world >= FIRST_WORLD ==> r is Ok && r->Ok_0@ == self.spec_hostname(),
            self.world < FIRST_WORLD ==> r is Err && r->Err_0 is ArgsError && r->Err_0->ArgsError_0@
                == "Invalid world: Must be at least 301"@,
    {
        if self.world < FIRST_WORLD {
            return Err(OsrsError::ArgsError(String::from_str("Invalid world: Must be at least 301")));
        }
        let mut host = String::from_str("oldschool");
        host.append(usize_to_string(self.world - 300).as_str());
        host.append(".runescape.com");
        Ok(host)
    }

    /// What `ping` is told about the number of pings. On Windows the
    /// number follows `-n`, and -1 stands for pings without end; elsewhere
    /// it follows `-c`, and nothing at all stands for pings without end.
    pub open spec fn spec_count_args(self, windows: bool) -> Seq<Seq<char>> {
        match self.count {
            Some(count) => seq![
                if windows {
                    "-n"@
                } else {
                    "-c"@
                },
                decimal(count as nat),
            ],
            None => if windows {
                seq!["-n"@, "-1"@]
            } else {
                Seq::<Seq<char>>::empty()
            },
        }
    }

    /// What `ping` is told about the number of pings.
    pub fn count_args(&self, windows: bool) -> (args: Vec<String>)
        ensures
            views(args@) == self.spec_count_args(windows),
    {
        let mut args: Vec<String> = Vec::new();
        match self.count {
            Some(count) => {
                if windows {
                    args.push(String::from_str("-n"));
                } else {
                    args.push(String::from_str("-c"));
                }
                args.push(usize_to_string(count));
            },
            None => {
                if windows {
                    args.push(String::from_str("-n"));
                    args.push(String::from_str("-1"));
                }
            },
        }
        assert(views(args@) =~= self.spec_count_args(windows));
        args
    }
}

/// The most doses of spice that go into one stew.
pub const MAX_DOSES: usize = 3;

/// The highest boost that a stew can give.
pub const MAX_BOOST: usize = 5;

/// A boost of so many levels, from 1 on.
#[derive(Copy, Clone, Debug, PartialEq, Eq)]
pub struct Boost(pub usize);

impl Boost {
    /// The boost that stands at a place of a table, where the first place
    /// is for a boost of one level.
    pub fn from_index(index: usize) -> (boost: Boost)
        requires
            index < usize::MAX,
        ensures
            boost.0 == index + 1,
    {
        Boost(index + 1)
    }

    /// The place of the boost in a table, where the first place is for a
    /// boost of one level.
    pub fn to_index(self) -> (index: usize)
        requires
            self.0 >= 1,
        ensures
            index == self.0 - 1,
    {
        self.0 - 1
    }
}

/// So many doses of spice, from 1 on.
#[derive(Copy, Clone, Debug, PartialEq, Eq)]
pub struct Doses(pub usize);

impl Doses {
    /// The doses that stand at a place of a table, where the first place is
    /// for one dose.
    pub fn from_index(index: usize) -> (doses: Doses)
        requires
            index < usize::MAX,
        ensures
            doses.0 == index + 1,
    {
        Doses(index + 1)
    }

    /// The place of the doses in a table, where the first place is for one
    /// dose.
    pub fn to_index(self) -> (index: usize)
        requires
            self.0 >= 1,
        ensures
            index == self.0 - 1,
    {
        self.0 - 1
    }
}

/// Works out the odds of a boost from spicy stews.
#[derive(Copy, Clone, Debug)]
pub struct CalcStewCommand {
    /// The least boost that counts as a success.
    pub boost: usize,
    /// How many doses of the spice there are in all.
    pub total_doses: usize,
}

impl CalcStewCommand {
    /// The boost that is asked for, or an error if no stew can give it.
    pub fn boost(&self) -> (r: Result<Boost, OsrsError>)
        ensures
            self.boost <= MAX_BOOST ==> r is Ok && r->Ok_0.0 == self.boost,
            self.boost > MAX_BOOST ==> r is Err && r->Err_0 is ArgsError && r->Err_0->ArgsError_0@
                == "Maximum boost is 5 levels"@,
    {
        if self.boost > MAX_BOOST {
            Err(OsrsError::ArgsError(String::from_str("Maximum boost is 5 levels")))
        } else {
            Ok(Boost(self.boost))
        }
    }

    /// How many stews can be made with so many doses in each. What is left
    /// over makes no stew.
    pub fn total_stews(&self, doses_per_stew: Doses) -> (stews: usize)
        requires
            doses_per_stew.0 >= 1,
        ensures
            stews == self.total_doses / doses_per_stew.0,
    {
        self.total_doses / doses_per_stew.0
    }
}

/// Looks up prices on the Grand Exchange.
#[derive(Clone, Debug)]
pub struct PriceCommand {
    /// The words to search for.
    pub query: Vec<String>,
}

/// The items of a list that have a price, each with its name and its
/// price, in the order of the list.
pub open spec fn priced(items: Seq<ItemWithPrice>) -> Seq<(Seq<char>, ItemPrice)> {
    items.filter(|item: ItemWithPrice| item.price is Some).map(
        |i: int, item: ItemWithPrice| (item.item.name@, item.price->Some_0),
    )
}

/// The view of each name in a list of rows.
pub open spec fn row_views(rows: Seq<(String, ItemPrice)>) -> Seq<(Seq<char>, ItemPrice)> {
    rows.map(|i: int, row: (String, ItemPrice)| (row.0@, row.1))
}

impl PriceCommand {
    /// The words to search for, with a space between each two.
    pub fn query(&self) -> (text: String)
        ensures
            text@ == join(views(self.query@), " "@),
    {
        join_words(&self.query, " ")
    }

    /// The rows of the price table: the name and the price of every item
    /// found that has a price.
    pub fn rows(items: &Vec<ItemWithPrice>) -> (rows: Vec<(String, ItemPrice)>)
        ensures
            row_views(rows@) == priced(items@),
    {
        let mut rows: Vec<(String, ItemPrice)> = Vec::new();
        let ghost has_price = |item: ItemWithPrice| item.price is Some;
        let mut i: usize = 0;
        while i < items.len()
            invariant
                i <= items.len(),
                has_price == |item: ItemWithPrice| item.price is Some,
                row_views(rows@) == priced(items@.take(i as int)),
            decreases items.len() - i,
        {
            proof {
                let next = items@.take(i + 1);
                assert(next.drop_last() =~= items@.take(i as int));
                assert(next.last() == items@[i as int]);
                reveal(Seq::filter);
            }
            match items[i].price {
                Some(price) => {
                    let name = items[i].item.name.clone();
                    proof {
                        let kept = items@.take(i as int).filter(has_price);
                        let row = (name@, price);
                        assert(priced(items@.take(i + 1)) =~= priced(items@.take(i as int)).push(
                            row,
                        ));
                        assert(row_views(rows@.push((name, price))) =~= row_views(rows@).push(row));
                    }
                    rows.push((name, price));
                },
                None => {},
            }
            i = i + 1;
        }
        proof {
            assert(items@.take(items.len() as int) =~= items@);
        }
        rows
    }
}

/// Shows what the hiscores hold for a player.
#[derive(Clone, Debug)]
pub struct HiscoreCommand {
    /// The name of the player, in one or more words; without any, the
    /// default player of the configuration is shown.
    pub username: Vec<String>,
}

impl HiscoreCommand {
    /// The name of the player to show.
    pub fn username(&self, cfg: &OsrsConfig) -> (r: Result<String, OsrsError>)
        ensures
            match username_for(cfg, self.username@) {
                Some(name) => r is Ok && r->Ok_0@ == name,
                None => r is Err && r->Err_0 is ArgsError && r->Err_0->ArgsError_0@
                    == "No player given"@,
            },
    {
        HiscorePlayer::username(cfg, &self.username)
    }
}

/// Shows the configuration.
#[derive(Copy, Clone, Debug)]
pub struct ConfigGetCommand {}

/// Sets one value of the configuration.
#[derive(Clone, Debug)]
pub struct ConfigSetCommand {
    /// The name of the value.
    pub key: String,
    /// What to set it to.
    pub value: String,
}

/// Asks the player how they farm herbs and saves the answers.
#[derive(Copy, Clone, Debug)]
pub struct ConfigSetHerbCommand {}

/// What the player is asked about, beyond what every player is asked: the
/// diaries and the favour that matter at the patches in use.
#[derive(Copy, Clone, Debug, PartialEq, Eq)]
pub struct HerbQuestions {
    /// Ask for the Falador diary.
    pub falador_diary: bool,
    /// Ask for the Kandarin diary.
    pub kandarin_diary: bool,
    /// Ask for the Kourend & Kebos diary.
    pub kourend_diary: bool,
    /// Ask for Hosidius favour.
    pub hosidius_favor: bool,
}

/// Whether a patch is among those in use.
pub fn uses_patch(patches: &Vec<HerbPatch>, patch: HerbPatch) -> (used: bool)
    ensures
        used == patches@.contains(patch),
{
    let mut i: usize = 0;
    while i < patches.len()
        invariant
            i <= patches.len(),
            forall|j: int| 0 <= j < i ==> patches[j] != patch,
        decreases patches.len() - i,
    {
        if same_patch(patches[i], patch) {
            return true;
        }
        i = i + 1;
    }
    false
}

/// Whether two patches are the same one.
pub fn same_patch(a: HerbPatch, b: HerbPatch) -> (same: bool)
    ensures
        same == (a == b),
{
    match (a, b) {
        (HerbPatch::Ardougne, HerbPatch::Ardougne) => true,
        (HerbPatch::Catherby, HerbPatch::Catherby) => true,
        (HerbPatch::Falador, HerbPatch::Falador) => true,
        (HerbPatch::FarmingGuild, HerbPatch::FarmingGuild) => true,
        (HerbPatch::HarmonyIsland, HerbPatch::HarmonyIsland) => true,
        (HerbPatch::Hosidius, HerbPatch::Hosidius) => true,
        (HerbPatch::PortPhasmatys, HerbPatch::PortPhasmatys) => true,
        (HerbPatch::TrollStronghold, HerbPatch::TrollStronghold) => true,
        (HerbPatch::Weiss, HerbPatch::Weiss) => true,
        _ => false,
    }
}

impl ConfigSetHerbCommand {
    /// What to ask about for the patches in use. A diary or the favour is
    /// asked for only if a patch is in use that it changes.
    pub fn questions(patches: &Vec<HerbPatch>) -> (ask: HerbQuestions)
        ensures
            ask.falador_diary == patches@.contains(HerbPatch::Falador),
            ask.kandarin_diary == patches@.contains(HerbPatch::Catherby),
            ask.kourend_diary == (patches@.contains(HerbPatch::FarmingGuild) || patches@.contains(
                HerbPatch::Hosidius,
            )),
            ask.hosidius_favor == patches@.contains(HerbPatch::Hosidius),
    {
        let hosidius = uses_patch(patches, HerbPatch::Hosidius);
        HerbQuestions {
            falador_diary: uses_patch(patches, HerbPatch::Falador),
            kandarin_diary: uses_patch(patches, HerbPatch::Catherby),
            kourend_diary: uses_patch(patches, HerbPatch::FarmingGuild) || hosidius,
            hosidius_favor: hosidius,
        }
    }
}

/// Where the level of a skill comes from.
#[derive(Clone, Debug)]
pub enum LevelSource {
    /// The level was given on the command line.
    Given(usize),
    /// The level is that of a player in the hiscores.
    Player(String),
}

/// Works out yield, experience and profit of farming herbs.
#[derive(Clone, Debug)]
pub struct CalcFarmHerbCommand {
    /// The farming level, if it is given rather than looked up.
    pub farming_level: Option<usize>,
    /// The magic level, if it is given rather than looked up.
    pub magic_level: Option<usize>,
    /// The player whose levels are looked up.
    pub player: Vec<String>,
}

/// Where a level comes from: given on the command line, or else looked up
/// for a player, named on the command line or else in the configuration.
/// Without any of these there is no telling.
pub fn level_source(cfg: &OsrsConfig, player: &Vec<String>, level: Option<usize>) -> (r: Result<
    LevelSource,
    OsrsError,
>)
    ensures
        match level {
            Some(given) => r is Ok && r->Ok_0 is Given && r->Ok_0->Given_0 == given,
            None => match username_for(cfg, player@) {
                Some(name) => r is Ok && r->Ok_0 is Player && r->Ok_0->Player_0@ == name,
                None => r is Err && r->Err_0 is ArgsError && r->Err_0->ArgsError_0@
                    == "No player given"@,
            },
        },
{
    match level {
        Some(given) => Ok(LevelSource::Given(given)),
        None => match HiscorePlayer::username(cfg, player) {
            Ok(name) => Ok(LevelSource::Player(name)),
            Err(e) => Err(e),
        },
    }
}

impl CalcFarmHerbCommand {
    /// Where the farming level comes from.
    pub fn farming_level_source(&self, cfg: &OsrsConfig) -> (r: Result<LevelSource, OsrsError>)
        ensures
            self.farming_level is Some ==> r is Ok && r->Ok_0 is Given && r->Ok_0->Given_0
                == self.farming_level->Some_0,
            self.farming_level is None ==> (r is Ok <==> username_for(cfg, self.player@) is Some),
    {
        level_source(cfg, &self.player, self.farming_level)
    }

    /// Where the magic level comes from. It is needed only if Resurrect
    /// Crops is in use; otherwise nothing is looked up and no level is
    /// missed.
    pub fn magic_level_source(&self, cfg: &OsrsConfig) -> (r: Result<
        Option<LevelSource>,
        OsrsError,
    >)
        ensures
            !cfg.farming.herbs.resurrect_crops ==> r is Ok && r->Ok_0 is None,
            cfg.farming.herbs.resurrect_crops && self.magic_level is Some ==> r is Ok && r->Ok_0
                is Some && r->Ok_0->Some_0 is Given && r->Ok_0->Some_0->Given_0
                == self.magic_level->Some_0,
            cfg.farming.herbs.resurrect_crops && self.magic_level is None ==> (r is Ok
                <==> username_for(cfg, self.player@) is Some),
    {
        if cfg.farming.herbs.resurrect_crops {
            match level_source(cfg, &self.player, self.magic_level) {
                Ok(source) => Ok(Some(source)),
                Err(e) => Err(e),
            }
        } else {
            Ok(None)
        }
    }
}

/// Where experience to start from comes from.
#[derive(Clone, Debug)]
pub enum XpSource {
    /// So much experience.
    Xp(usize),
    /// The skill of a player in the hiscores.
    Player { player: Vec<String>, skill: Skill },
}

/// Works out the experience between two points.
#[derive(Clone, Debug)]
pub struct CalcXpCommand {
    /// The experience to start from.
    pub source_xp: Option<usize>,
    /// The level to start from.
    pub source_level: Option<usize>,
    /// The player whose experience to start from.
    pub player: Vec<String>,
    /// The skill of the player to start from.
    pub skill: Option<Skill>,
    /// The experience to get to.
    pub dest_xp: Option<usize>,
    /// The level to get to.
    pub dest_level: Option<usize>,
    /// Experience to add to where to get to, or else to where to start.
    pub plus_xp: Option<usize>,
}

impl CalcXpCommand {
    /// Whether the command says in exactly one way where to start from.
    pub open spec fn names_one_source(&self) -> bool {
        ||| self.source_xp is Some && self.source_level is None && self.skill is None
            && self.player@.len() == 0
        ||| self.source_xp is None && self.source_level is Some && self.skill is None
            && self.player@.len() == 0
        ||| self.source_xp is None && self.source_level is None && self.skill is Some
    }

    /// The experience to start from: given as such, or as a level, or to
    /// be looked up for a player and a skill. Exactly one of the three
    /// must be asked for.
    pub fn source(&self) -> (r: Result<XpSource, OsrsError>)
        ensures
            !self.names_one_source() ==> r is Err && r->Err_0 is ArgsError,
            self.names_one_source() && self.source_xp is Some ==> r is Ok && r->Ok_0 is Xp
                && r->Ok_0->Xp_0 == self.source_xp->Some_0,
            self.names_one_source() && self.source_level is Some ==> {
                let level = self.source_level->Some_0;
                if 1 <= level <= MAX_VIRTUAL_LEVEL {
                    r is Ok && r->Ok_0 is Xp && r->Ok_0->Xp_0 == threshold(level as int)
                } else {
                    r is Err && r->Err_0 is InvalidLevel && r->Err_0->InvalidLevel_0 == level
                }
            },
            self.names_one_source() && self.skill is Some ==> r is Ok && r->Ok_0 is Player
                && r->Ok_0->skill == self.skill->Some_0,
    {
        let no_player = self.player.len() == 0;
        match (self.source_xp, self.source_level, self.skill) {
            (Some(xp), None, None) if no_player => Ok(XpSource::Xp(xp)),
            (None, Some(level), None) if no_player => match level_to_xp(level) {
                Ok(xp) => Ok(XpSource::Xp(xp)),
                Err(e) => Err(e),
            },
            (None, None, Some(skill)) => Ok(XpSource::Player { player: self.player.clone(), skill }),
            _ => Err(
                OsrsError::ArgsError(
                    String::from_str(
                        "Must specify exactly one of --from-xp, --from-lvl, or (--player and --skill)",
                    ),
                ),
            ),
        }
    }

    /// Whether the command says in exactly one way where to get to: an
    /// experience, a level, or only an addition to where it starts.
    pub open spec fn names_one_dest(&self) -> bool {
        ||| self.dest_xp is Some && self.dest_level is None
        ||| self.dest_xp is None && self.dest_level is Some
        ||| self.dest_xp is None && self.dest_level is None && self.plus_xp is Some
    }

    /// The experience to get to, when starting from `source_xp`: given as
    /// such or as a level, with what is to be added on top; or the
    /// experience to start from with the addition, if only that is given.
    pub fn dest(&self, source_xp: usize) -> (r: Result<u128, OsrsError>)
        ensures
            !self.names_one_dest() ==> r is Err && r->Err_0 is ArgsError,
            self.names_one_dest() ==> {
                let plus = match self.plus_xp {
                    Some(extra) => extra as int,
                    None => 0,
                };
                if self.dest_xp is Some {
                    r is Ok && r->Ok_0 == self.dest_xp->Some_0 + plus
                } else if self.dest_level is Some {
                    let level = self.dest_level->Some_0;
                    if 1 <= level <= MAX_VIRTUAL_LEVEL {
                        r is Ok && r->Ok_0 == threshold(level as int) + plus
                    } else {
                        r is Err && r->Err_0 is InvalidLevel && r->Err_0->InvalidLevel_0 == level
                    }
                } else {
                    r is Ok && r->Ok_0 == source_xp + plus
                }
            },
    {
        let base: usize = match (self.dest_xp, self.dest_level, self.plus_xp) {
            (Some(xp), None, _) => xp,
            (None, Some(level), _) => match level_to_xp(level) {
                Ok(xp) => xp,
                Err(e) => {
                    return Err(e);
                },
            },
            (None, None, Some(_)) => source_xp,
            _ => {
                return Err(
                    OsrsError::ArgsError(
                        String::from_str("Must specify exactly one of --to-xp or --to-lvl"),
                    ),
                );
            },
        };
        let plus: usize = match self.plus_xp {
            Some(extra) => extra,
            None => 0,
        };
        Ok(base as u128 + plus as u128)
    }
}

} // verus!
