//! Achievement diaries.

use vstd::prelude::*;

verus! {

/// The tiers of an achievement diary, from the first to the last that can be
/// completed. A later tier counts as more than an earlier one.
#[derive(Copy, Clone, Debug, PartialEq, Eq, PartialOrd, Ord)]
pub enum AchievementDiaryLevel {
    Easy,
    Medium,
    Hard,
    Elite,
}

impl AchievementDiaryLevel {
    /// The position of the tier in the order of completion, starting at 0.
    pub open spec fn rank(self) -> nat {
        match self {
            AchievementDiaryLevel::Easy => 0,
            AchievementDiaryLevel::Medium => 1,
            AchievementDiaryLevel::Hard => 2,
            AchievementDiaryLevel::Elite => 3,
        }
    }

    /// The position of the tier in the order of completion, starting at 0.
    pub fn ordinal(self) -> (r: u8)
        ensures
            r == self.rank(),
    {
        match self {
            AchievementDiaryLevel::Easy => 0,
            AchievementDiaryLevel::Medium => 1,
            AchievementDiaryLevel::Hard => 2,
            AchievementDiaryLevel::Elite => 3,
        }
    }

    /// Whether this tier is `threshold` or a later one.
    pub fn at_least(self, threshold: AchievementDiaryLevel) -> (b: bool)
        ensures
            b == (self.rank() >= threshold.rank()),
    {
        self.ordinal() >= threshold.ordinal()
    }
}

/// Whether a diary has been completed up to `threshold` or further. An
/// account that has not started the diary has reached no tier.
pub open spec fn diary_reached(
    diary: Option<AchievementDiaryLevel>,
    threshold: AchievementDiaryLevel,
) -> bool {
    match diary {
        Some(level) => level.rank() >= threshold.rank(),
        None => false,
    }
}

} // verus!
