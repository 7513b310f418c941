//! What the hiscores say about a player.

use crate::config::OsrsConfig;
use crate::error::OsrsError;
use crate::skill::Skill;
use crate::text::{join, join_words, views};
use vstd::prelude::*;
use vstd::string::StringExecFns;

verus! {

/// One skill of a player in the hiscores.
#[derive(Clone, Debug)]
pub struct HiscoreSkill {
    /// Which skill this is.
    pub name: Skill,
    /// The rank of the player in the skill, or -1 without a rank.
    pub rank: isize,
    /// The level of the player in the skill.
    pub level: usize,
    /// The experience of the player in the skill.
    pub xp: usize,
}

/// A minigame or a boss of a player in the hiscores.
#[derive(Clone, Debug)]
pub struct HiscoreActivity {
    /// The name of the minigame or boss.
    pub name: String,
    /// The rank of the player, or -1 without a rank.
    pub rank: isize,
    /// The score or the number of kills, or -1 without a rank.
    pub score: isize,
}

/// What the hiscores hold for one player.
#[derive(Clone, Debug)]
pub struct HiscorePlayer {
    /// The skills that the hiscores list for the player.
    pub skills: Vec<HiscoreSkill>,
    /// The minigames and bosses that the player has a rank in.
    pub activities: Vec<HiscoreActivity>,
}

/// The place of the first entry for `skill` in a list of skills, if there
/// is one.
pub open spec fn first_entry(skills: Seq<HiscoreSkill>, skill: Skill, at: int) -> bool {
    &&& 0 <= at < skills.len()
    &&& skills[at].name == skill
    &&& forall|j: int| 0 <= j < at ==> skills[j].name != skill
}

/// The activities with a rank, in the order in which they are listed.
pub open spec fn ranked(activities: Seq<HiscoreActivity>) -> Seq<HiscoreActivity> {
    activities.filter(|a: HiscoreActivity| a.rank >= 0)
}

/// The name of the player to look up: the words given on the command
/// line, with a space between them, or else the default player of the
/// configuration, if it has one.
pub open spec fn username_for(cfg: &OsrsConfig, username_override: Seq<String>) -> Option<
    Seq<char>,
> {
    if username_override.len() > 0 {
        Some(join(views(username_override), " "@))
    } else {
        match cfg.default_player {
            Some(player) => Some(player@),
            None => None,
        }
    }
}

impl HiscorePlayer {
    /// What the hiscores returned for a player, without the activities in
    /// which the player has no rank.
    pub fn new(skills: Vec<HiscoreSkill>, activities: Vec<HiscoreActivity>) -> (player:
        HiscorePlayer)
        ensures
            player.skills == skills,
            player.activities@ == ranked(activities@),
    {
        HiscorePlayer { skills, activities: retain_ranked(activities) }
    }

    /// The entry of the player for one skill: the first one listed, or
    /// `None` if the hiscores have nothing on that skill.
    pub fn skill(&self, skill: Skill) -> (entry: Option<&HiscoreSkill>)
        ensures
            entry is None <==> forall|j: int| 0 <= j < self.skills.len() ==> self.skills[j].name
                != skill,
            entry matches Some(found) ==> exists|at: int|
                first_entry(self.skills@, skill, at) && *found == self.skills[at],
    {
        let mut i: usize = 0;
        while i < self.skills.len()
            invariant
                i <= self.skills.len(),
                forall|j: int| 0 <= j < i ==> self.skills[j].name != skill,
            decreases self.skills.len() - i,
        {
            if self.skills[i].name == skill {
                assert(first_entry(self.skills@, skill, i as int));
                return Some(&self.skills[i]);
            }
            i = i + 1;
        }
        None
    }

    /// The name of the player that a command is about. Words given on the
    /// command line come first; without any, the default player of the
    /// configuration is taken; without that, the command cannot go on.
    pub fn username(cfg: &OsrsConfig, username_override: &Vec<String>) -> (r: Result<
        String,
        OsrsError,
    >)
        ensures
            match username_for(cfg, username_override@) {
                Some(name) => r is Ok && r->Ok_0@ == name,
                None => r is Err && r->Err_0 is ArgsError && r->Err_0->ArgsError_0@
                    == "No player given"@,
            },
    {
        if username_override.len() > 0 {
            Ok(join_words(username_override, " "))
        } else {
            match &cfg.default_player {
                Some(player) => Ok(player.clone()),
                None => Err(OsrsError::ArgsError(String::from_str("No player given"))),
            }
        }
    }
}

/// Keeps the activities in which the player has a rank, in their order.
pub fn retain_ranked(activities: Vec<HiscoreActivity>) -> (kept: Vec<HiscoreActivity>)
    ensures
        kept@ == ranked(activities@),
{
    let mut activities = activities;
    let ghost all = activities@;
    let mut kept: Vec<HiscoreActivity> = Vec::new();
    let mut rest: Vec<HiscoreActivity> = Vec::new();
    // take the entries from the back, then put the kept ones in order again
    let ghost mut taken: Seq<HiscoreActivity> = Seq::empty();
    while activities.len() > 0
        invariant
            activities@ + taken == all,
            rest@.reverse() == ranked(taken),
        decreases activities.len(),
    {
        let ghost before = activities@;
        let last = activities.pop().unwrap();
        proof {
            let next = seq![last] + taken;
            assert(before == activities@.push(last));
            assert(activities@ + next =~= all);
            lemma_ranked_front(last, taken);
            if last.rank >= 0 {
                assert(rest@.push(last).reverse() =~= seq![last] + rest@.reverse());
            }
            taken = next;
        }
        if last.rank >= 0 {
            rest.push(last);
        }
    }
    proof {
        assert(taken =~= all);
    }
    let ghost flipped = rest@;
    while rest.len() > 0
        invariant
            kept@ + rest@.reverse() == flipped.reverse(),
        decreases rest.len(),
    {
        let ghost before = rest@;
        let last = rest.pop().unwrap();
        proof {
            assert(before == rest@.push(last));
            assert(before.reverse() =~= seq![last] + rest@.reverse());
            assert(kept@.push(last) + rest@.reverse() =~= kept@ + before.reverse());
        }
        kept.push(last);
    }
    proof {
        assert(kept@ + rest@.reverse() =~= kept@);
    }
    kept
}

/// Filtering a list whose first entry is known: the entry stays in front
/// if it has a rank and is dropped if not.
proof fn lemma_ranked_front(first: HiscoreActivity, rest: Seq<HiscoreActivity>)
    ensures
        ranked(seq![first] + rest) == if first.rank >= 0 {
            seq![first] + ranked(rest)
        } else {
            ranked(rest)
        },
{
    let keep = |a: HiscoreActivity| a.rank >= 0;
    Seq::filter_distributes_over_add(seq![first], rest, keep);
    reveal_with_fuel(Seq::filter, 3);
    assert(seq![first].drop_last() =~= Seq::<HiscoreActivity>::empty());
    assert(seq![first].last() == first);
    assert(Seq::<HiscoreActivity>::empty().filter(keep) =~= Seq::<HiscoreActivity>::empty());
    assert(Seq::<HiscoreActivity>::empty().push(first) =~= seq![first]);
    assert(seq![first].filter(keep) =~= if first.rank >= 0 {
        seq![first]
    } else {
        Seq::<HiscoreActivity>::empty()
    });
    assert(Seq::<HiscoreActivity>::empty() + ranked(rest) =~= ranked(rest));
}

} // verus!
