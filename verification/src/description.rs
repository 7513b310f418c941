//! Patches in words.

use crate::config::FarmingHerbsConfig;
use crate::farm::{AnimaPlant, Compost, HerbPatch};
use crate::text::join;
use vstd::prelude::*;
use vstd::string::StringExecFns;

verus! {

/// What a yield bonus of so many percent reads as.
pub open spec fn yield_text(percent: nat) -> Seq<char> {
    if percent == 5 {
        "+5% yield"@
    } else if percent == 10 {
        "+10% yield"@
    } else {
        "+15% yield"@
    }
}

impl HerbPatch {
    /// The name of the place where the patch is.
    pub open spec fn spec_name(self) -> Seq<char> {
        match self {
            HerbPatch::Ardougne => "Ardougne"@,
            HerbPatch::Catherby => "Catherby"@,
            HerbPatch::Falador => "Falador"@,
            HerbPatch::FarmingGuild => "Farming Guild"@,
            HerbPatch::HarmonyIsland => "Harmony Island"@,
            HerbPatch::Hosidius => "Hosidius"@,
            HerbPatch::PortPhasmatys => "Port Phasmatys"@,
            HerbPatch::TrollStronghold => "Troll Stronghold"@,
            HerbPatch::Weiss => "Weiss"@,
        }
    }

    /// The name of the place where the patch is.
    pub fn name(self) -> (name: &'static str)
        ensures
            name@ == self.spec_name(),
    {
        match self {
            HerbPatch::Ardougne => "Ardougne",
            HerbPatch::Catherby => "Catherby",
            HerbPatch::Falador => "Falador",
            HerbPatch::FarmingGuild => "Farming Guild",
            HerbPatch::HarmonyIsland => "Harmony Island",
            HerbPatch::Hosidius => "Hosidius",
            HerbPatch::PortPhasmatys => "Port Phasmatys",
            HerbPatch::TrollStronghold => "Troll Stronghold",
            HerbPatch::Weiss => "Weiss",
        }
    }

    /// The name of the place where the patch is.
    pub fn to_string(self) -> (name: String)
        ensures
            name@ == self.spec_name(),
    {
        String::from_str(self.name())
    }

    /// What sets the patch apart, each in a few words: that it is free of
    /// disease, its yield bonus, its experience bonus; those that apply, in
    /// this order.
    pub open spec fn spec_modifiers(self, herb_cfg: &FarmingHerbsConfig) -> Seq<Seq<char>> {
        let health = if self.disease_free(herb_cfg) {
            seq!["disease-free"@]
        } else {
            Seq::<Seq<char>>::empty()
        };
        let leaves = if self.yield_bonus_percent(herb_cfg) > 0 {
            seq![yield_text(self.yield_bonus_percent(herb_cfg))]
        } else {
            Seq::<Seq<char>>::empty()
        };
        let lessons = if self.xp_bonus_percent(herb_cfg) > 0 {
            seq!["+10% XP"@]
        } else {
            Seq::<Seq<char>>::empty()
        };
        health + leaves + lessons
    }

    /// The name of the patch, followed in brackets by what sets it apart,
    /// if anything does.
    pub open spec fn spec_description(self, herb_cfg: &FarmingHerbsConfig) -> Seq<char> {
        let modifiers = self.spec_modifiers(herb_cfg);
        if modifiers.len() == 0 {
            self.spec_name()
        } else {
            self.spec_name() + " ("@ + join(modifiers, ", "@) + ")"@
        }
    }

    /// What sets the patch apart, each in a few words.
    pub fn modifiers(self, herb_cfg: &FarmingHerbsConfig) -> (words: Vec<String>)
        ensures
            crate::text::views(words@) == self.spec_modifiers(herb_cfg),
    {
        let mut words: Vec<String> = Vec::new();
        if self.disease_free(herb_cfg) {
            words.push(String::from_str("disease-free"));
        }
        let leaves: u128 = self.yield_percent(herb_cfg);
        if leaves == 5 {
            words.push(String::from_str("+5% yield"));
        } else if leaves == 10 {
            words.push(String::from_str("+10% yield"));
        } else if leaves == 15 {
            words.push(String::from_str("+15% yield"));
        }
        if self.xp_percent(herb_cfg) > 0 {
            words.push(String::from_str("+10% XP"));
        }
        assert(crate::text::views(words@) =~= self.spec_modifiers(herb_cfg));
        words
    }

    /// The name of the patch with everything that sets it apart.
    pub fn description(self, herb_cfg: &FarmingHerbsConfig) -> (text: String)
        ensures
            text@ == self.spec_description(herb_cfg),
    {
        let mut text = self.to_string();
        let words = self.modifiers(herb_cfg);
        if words.len() > 0 {
            text.append(" (");
            text.append(crate::text::join_words(&words, ", ").as_str());
            text.append(")");
        }
        text
    }
}

/// A yes or a no in words.
pub open spec fn yes_no(value: bool) -> Seq<char> {
    if value {
        "Yes"@
    } else {
        "No"@
    }
}

/// A yes or a no in words.
pub fn fmt_bool(value: bool) -> (text: &'static str)
    ensures
        text@ == yes_no(value),
{
    if value {
        "Yes"
    } else {
        "No"
    }
}

impl Compost {
    /// The name of the compost.
    pub open spec fn spec_name(self) -> Seq<char> {
        match self {
            Compost::Normal => "Normal"@,
            Compost::Supercompost => "Supercompost"@,
            Compost::Ultracompost => "Ultracompost"@,
        }
    }

    /// The name of the compost.
    pub fn name(self) -> (name: &'static str)
        ensures
            name@ == self.spec_name(),
    {
        match self {
            Compost::Normal => "Normal",
            Compost::Supercompost => "Supercompost",
            Compost::Ultracompost => "Ultracompost",
        }
    }
}

impl AnimaPlant {
    /// The name of the plant.
    pub open spec fn spec_name(self) -> Seq<char> {
        match self {
            AnimaPlant::Kronos => "Kronos"@,
            AnimaPlant::Attas => "Attas"@,
            AnimaPlant::Iasor => "Iasor"@,
        }
    }

    /// The name of the plant.
    pub fn name(self) -> (name: &'static str)
        ensures
            name@ == self.spec_name(),
    {
        match self {
            AnimaPlant::Kronos => "Kronos",
            AnimaPlant::Attas => "Attas",
            AnimaPlant::Iasor => "Iasor",
        }
    }
}

/// The lines that list patches, one line for each: a dash, the
/// description of the patch, and the end of the line.
pub open spec fn patch_lines(patches: Seq<HerbPatch>, herb_cfg: &FarmingHerbsConfig) -> Seq<char>
    decreases patches.len(),
{
    if patches.len() == 0 {
        Seq::<char>::empty()
    } else {
        patch_lines(patches.drop_last(), herb_cfg) + " - "@ + patches.last().spec_description(
            herb_cfg,
        ) + "\n"@
    }
}

impl FarmingHerbsConfig {
    /// The settings in words: the patches, one on each line, then each
    /// item, the spell, the compost and the anima plant on a line of its
    /// own.
    pub open spec fn spec_text(&self) -> Seq<char> {
        "Patches:\n"@ + patch_lines(self.patches@, self) + "Magic secateurs: "@ + yes_no(
            self.magic_secateurs,
        ) + "\nFarming cape: "@ + yes_no(self.farming_cape) + "\nBottomless bucket: "@ + yes_no(
            self.bottomless_bucket,
        ) + "\nResurrect crops: "@ + yes_no(self.resurrect_crops) + "\nCompost: "@ + (
        match self.compost {
            Some(compost) => compost.spec_name(),
            None => "None"@,
        }) + "\nAnima plant: "@ + (match self.anima_plant {
            Some(plant) => plant.spec_name(),
            None => "None"@,
        })
    }

    /// The settings in words.
    pub fn to_string(&self) -> (text: String)
        ensures
            text@ == self.spec_text(),
    {
        let mut text = String::from_str("Patches:\n");
        let mut i: usize = 0;
        while i < self.patches.len()
            invariant
                i <= self.patches.len(),
                text@ == "Patches:\n"@ + patch_lines(self.patches@.take(i as int), self),
            decreases self.patches.len() - i,
        {
            proof {
                let next = self.patches@.take(i + 1);
                assert(next.drop_last() =~= self.patches@.take(i as int));
                assert(next.last() == self.patches@[i as int]);
            }
            let ghost before = text@;
            text.append(" - ");
            text.append(self.patches[i].description(self).as_str());
            text.append("\n");
            assert(text@ =~= "Patches:\n"@ + patch_lines(self.patches@.take(i + 1), self));
            i = i + 1;
        }
        proof {
            assert(self.patches@.take(self.patches.len() as int) =~= self.patches@);
        }
        text.append("Magic secateurs: ");
        text.append(fmt_bool(self.magic_secateurs));
        text.append("\nFarming cape: ");
        text.append(fmt_bool(self.farming_cape));
        text.append("\nBottomless bucket: ");
        text.append(fmt_bool(self.bottomless_bucket));
        text.append("\nResurrect crops: ");
        text.append(fmt_bool(self.resurrect_crops));
        text.append("\nCompost: ");
        text.append(
            match self.compost {
                Some(compost) => compost.name(),
                None => "None",
            },
        );
        text.append("\nAnima plant: ");
        text.append(
            match self.anima_plant {
                Some(plant) => plant.name(),
                None => "None",
            },
        );
        assert(text@ =~= self.spec_text());
        text
    }
}

} // verus!
