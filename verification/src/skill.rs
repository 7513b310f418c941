//! The skills of a player.

use crate::error::OsrsError;
use crate::text::{lowercase, to_lowercase, views};
use vstd::prelude::*;
use vstd::string::StringExecFns;

verus! {

/// One skill of a player, or the total of them all.
#[derive(Copy, Clone, Debug, PartialEq, Eq, Hash, Structural)]
pub enum Skill {
    Total,
    Attack,
    Defence,
    Strength,
    Hitpoints,
    Ranged,
    Prayer,
    Magic,
    Cooking,
    Woodcutting,
    Fletching,
    Fishing,
    Firemaking,
    Crafting,
    Smithing,
    Mining,
    Herblore,
    Agility,
    Thieving,
    Slayer,
    Farming,
    Runecrafting,
    Hunter,
    Construction,
}

impl Skill {
    /// The name of the skill.
    pub open spec fn spec_name(self) -> Seq<char> {
        match self {
            Skill::Total => "Total"@,
            Skill::Attack => "Attack"@,
            Skill::Defence => "Defence"@,
            Skill::Strength => "Strength"@,
            Skill::Hitpoints => "Hitpoints"@,
            Skill::Ranged => "Ranged"@,
            Skill::Prayer => "Prayer"@,
            Skill::Magic => "Magic"@,
            Skill::Cooking => "Cooking"@,
            Skill::Woodcutting => "Woodcutting"@,
            Skill::Fletching => "Fletching"@,
            Skill::Fishing => "Fishing"@,
            Skill::Firemaking => "Firemaking"@,
            Skill::Crafting => "Crafting"@,
            Skill::Smithing => "Smithing"@,
            Skill::Mining => "Mining"@,
            Skill::Herblore => "Herblore"@,
            Skill::Agility => "Agility"@,
            Skill::Thieving => "Thieving"@,
            Skill::Slayer => "Slayer"@,
            Skill::Farming => "Farming"@,
            Skill::Runecrafting => "Runecrafting"@,
            Skill::Hunter => "Hunter"@,
            Skill::Construction => "Construction"@,
        }
    }

    /// The name of the skill.
    pub fn name(self) -> (name: &'static str)
        ensures
            name@ == self.spec_name(),
    {
        match self {
            Skill::Total => "Total",
            Skill::Attack => "Attack",
            Skill::Defence => "Defence",
            Skill::Strength => "Strength",
            Skill::Hitpoints => "Hitpoints",
            Skill::Ranged => "Ranged",
            Skill::Prayer => "Prayer",
            Skill::Magic => "Magic",
            Skill::Cooking => "Cooking",
            Skill::Woodcutting => "Woodcutting",
            Skill::Fletching => "Fletching",
            Skill::Fishing => "Fishing",
            Skill::Firemaking => "Firemaking",
            Skill::Crafting => "Crafting",
            Skill::Smithing => "Smithing",
            Skill::Mining => "Mining",
            Skill::Herblore => "Herblore",
            Skill::Agility => "Agility",
            Skill::Thieving => "Thieving",
            Skill::Slayer => "Slayer",
            Skill::Farming => "Farming",
            Skill::Runecrafting => "Runecrafting",
            Skill::Hunter => "Hunter",
            Skill::Construction => "Construction",
        }
    }
}

/// Every skill, in the order of the hiscores.
pub open spec fn all_skills() -> Seq<Skill> {
    seq![
        Skill::Total,
        Skill::Attack,
        Skill::Defence,
        Skill::Strength,
        Skill::Hitpoints,
        Skill::Ranged,
        Skill::Prayer,
        Skill::Magic,
        Skill::Cooking,
        Skill::Woodcutting,
        Skill::Fletching,
        Skill::Fishing,
        Skill::Firemaking,
        Skill::Crafting,
        Skill::Smithing,
        Skill::Mining,
        Skill::Herblore,
        Skill::Agility,
        Skill::Thieving,
        Skill::Slayer,
        Skill::Farming,
        Skill::Runecrafting,
        Skill::Hunter,
        Skill::Construction,
    ]
}

/// The skill that a word in lower case stands for: the first skill, in
/// the order of the hiscores, that has the word as its name or as one of
/// its short names.
pub open spec fn names_skill(word: Seq<char>, skill: Skill, at: int) -> bool {
    &&& 0 <= at < all_skills().len()
    &&& all_skills()[at] == skill
    &&& skill.spec_words().contains(word)
    &&& forall|j: int| 0 <= j < at ==> !(#[trigger] all_skills()[j]).spec_words().contains(word)
}

impl Skill {
    /// Every skill, in the order of the hiscores.
    pub fn all() -> (skills: Vec<Skill>)
        ensures
            skills@ == all_skills(),
    {
        let skills = vec![
            Skill::Total,
            Skill::Attack,
            Skill::Defence,
            Skill::Strength,
            Skill::Hitpoints,
            Skill::Ranged,
            Skill::Prayer,
            Skill::Magic,
            Skill::Cooking,
            Skill::Woodcutting,
            Skill::Fletching,
            Skill::Fishing,
            Skill::Firemaking,
            Skill::Crafting,
            Skill::Smithing,
            Skill::Mining,
            Skill::Herblore,
            Skill::Agility,
            Skill::Thieving,
            Skill::Slayer,
            Skill::Farming,
            Skill::Runecrafting,
            Skill::Hunter,
            Skill::Construction,
        ];
        assert(skills@ =~= all_skills());
        skills
    }

    /// The words that stand for the skill, in lower case: its name first,
    /// then its short names.
    pub open spec fn spec_words(self) -> Seq<Seq<char>> {
        match self {
            Skill::Total => seq!["total"@],
            Skill::Attack => seq!["attack"@, "atk"@],
            Skill::Defence => seq!["defence"@, "defense"@, "def"@],
            Skill::Strength => seq!["strength"@, "str"@],
            Skill::Hitpoints => seq!["hitpoints"@, "hp"@],
            Skill::Ranged => seq!["ranged"@, "range"@, "ranging"@],
            Skill::Prayer => seq!["prayer"@, "pray"@],
            Skill::Magic => seq!["magic"@, "mage"@],
            Skill::Cooking => seq!["cooking"@, "cook"@],
            Skill::Woodcutting => seq!["woodcutting"@, "wc"@, "woodcut"@],
            Skill::Fletching => seq!["fletching"@, "fletch"@],
            Skill::Fishing => seq!["fishing"@, "fish"@],
            Skill::Firemaking => seq!["firemaking"@, "fm"@, "fming"@],
            Skill::Crafting => seq!["crafting"@, "craft"@],
            Skill::Smithing => seq!["smithing"@, "smith"@],
            Skill::Mining => seq!["mining"@, "mine"@],
            Skill::Herblore => seq!["herblore"@, "herb"@],
            Skill::Agility => seq!["agility"@, "agi"@],
            Skill::Thieving => seq!["thieving"@, "thieve"@, "thief"@],
            Skill::Slayer => seq!["slayer"@, "slay"@],
            Skill::Farming => seq!["farming"@, "farm"@],
            Skill::Runecrafting => seq!["runecrafting"@, "rc"@, "runecraft"@],
            Skill::Hunter => seq!["hunter"@, "hunt"@],
            Skill::Construction => seq!["construction"@, "con"@, "cons"@],
        }
    }

    /// The words that stand for the skill, in lower case.
    pub fn words(self) -> (words: Vec<String>)
        ensures
            views(words@) == self.spec_words(),
    {
        let words = match self {
            Skill::Total => vec![String::from_str("total")],
            Skill::Attack => vec![String::from_str("attack"), String::from_str("atk")],
            Skill::Defence => vec![String::from_str("defence"), String::from_str("defense"), String::from_str("def")],
            Skill::Strength => vec![String::from_str("strength"), String::from_str("str")],
            Skill::Hitpoints => vec![String::from_str("hitpoints"), String::from_str("hp")],
            Skill::Ranged => vec![String::from_str("ranged"), String::from_str("range"), String::from_str("ranging")],
            Skill::Prayer => vec![String::from_str("prayer"), String::from_str("pray")],
            Skill::Magic => vec![String::from_str("magic"), String::from_str("mage")],
            Skill::Cooking => vec![String::from_str("cooking"), String::from_str("cook")],
            Skill::Woodcutting => vec![String::from_str("woodcutting"), String::from_str("wc"), String::from_str("woodcut")],
            Skill::Fletching => vec![String::from_str("fletching"), String::from_str("fletch")],
            Skill::Fishing => vec![String::from_str("fishing"), String::from_str("fish")],
            Skill::Firemaking => vec![String::from_str("firemaking"), String::from_str("fm"), String::from_str("fming")],
            Skill::Crafting => vec![String::from_str("crafting"), String::from_str("craft")],
            Skill::Smithing => vec![String::from_str("smithing"), String::from_str("smith")],
            Skill::Mining => vec![String::from_str("mining"), String::from_str("mine")],
            Skill::Herblore => vec![String::from_str("herblore"), String::from_str("herb")],
            Skill::Agility => vec![String::from_str("agility"), String::from_str("agi")],
            Skill::Thieving => vec![String::from_str("thieving"), String::from_str("thieve"), String::from_str("thief")],
            Skill::Slayer => vec![String::from_str("slayer"), String::from_str("slay")],
            Skill::Farming => vec![String::from_str("farming"), String::from_str("farm")],
            Skill::Runecrafting => vec![String::from_str("runecrafting"), String::from_str("rc"), String::from_str("runecraft")],
            Skill::Hunter => vec![String::from_str("hunter"), String::from_str("hunt")],
            Skill::Construction => vec![String::from_str("construction"), String::from_str("con"), String::from_str("cons")],
        };
        assert(views(words@) =~= self.spec_words());
        words
    }

    /// The name of the skill.
    pub fn to_string(self) -> (name: String)
        ensures
            name@ == self.spec_name(),
    {
        String::from_str(self.name())
    }

    /// The skill that a word stands for, where upper and lower case count
    /// as the same, or an error for a word that stands for none.
    pub fn from_str(word: &str) -> (r: Result<Skill, OsrsError>)
        ensures
            r matches Ok(skill) ==> exists|at: int| names_skill(lowercase(word@), skill, at),
            r is Err <==> forall|j: int|
                0 <= j < all_skills().len() ==> !(#[trigger] all_skills()[j]).spec_words().contains(
                    lowercase(word@),
                ),
            r matches Err(e) ==> e is UnknownSkill && e->UnknownSkill_0@ == word@,
    {
        let lower = to_lowercase(word);
        let skills = Skill::all();
        let mut i: usize = 0;
        while i < skills.len()
            invariant
                i <= skills.len(),
                skills@ == all_skills(),
                lower@ == lowercase(word@),
                forall|j: int|
                    0 <= j < i ==> !(#[trigger] all_skills()[j]).spec_words().contains(lower@),
            decreases skills.len() - i,
        {
            let skill = skills[i];
            let words = skill.words();
            let mut k: usize = 0;
            while k < words.len()
                invariant
                    k <= words.len(),
                    i < skills.len(),
                    skills@ == all_skills(),
                    skill == all_skills()[i as int],
                    lower@ == lowercase(word@),
                    views(words@) == skill.spec_words(),
                    forall|j: int| 0 <= j < k ==> skill.spec_words()[j] != lower@,
                    forall|j: int|
                        0 <= j < i ==> !(#[trigger] all_skills()[j]).spec_words().contains(lower@),
                decreases words.len() - k,
            {
                assert(views(words@)[k as int] == words@[k as int]@);
                if words[k] == lower {
                    assert(skill.spec_words()[k as int] == lower@);
                    assert(skill.spec_words().contains(lower@));
                    assert(names_skill(lower@, skill, i as int));
                    return Ok(skill);
                }
                k = k + 1;
            }
            assert(!skill.spec_words().contains(lower@));
            i = i + 1;
        }
        Err(OsrsError::UnknownSkill(String::from_str(word)))
    }
}

} // verus!
