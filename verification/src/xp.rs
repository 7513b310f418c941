//! Experience and levels.

use crate::error::OsrsError;
use vstd::prelude::*;

verus! {

/// The highest level that experience is counted up to. Levels above 99
/// are not shown in the game, but the experience for them is known.
pub const MAX_VIRTUAL_LEVEL: usize = 127;

/// The experience at which each level begins, from level 1 on.
pub open spec fn level_table() -> Seq<usize> {
    seq![
        0, 83, 174, 276, 388, 512, 650, 801,
        969, 1154, 1358, 1584, 1833, 2107, 2411, 2746,
        3115, 3523, 3973, 4470, 5018, 5624, 6291, 7028,
        7842, 8740, 9730, 10824, 12031, 13363, 14833, 16456,
        18247, 20224, 22406, 24815, 27473, 30408, 33648, 37224,
        41171, 45529, 50339, 55649, 61512, 67983, 75127, 83014,
        91721, 101333, 111945, 123660, 136594, 150872, 166636, 184040,
        203254, 224466, 247886, 273742, 302288, 333804, 368599, 407015,
        449428, 496254, 547953, 605032, 668051, 737627, 814445, 899257,
        992895, 1096278, 1210421, 1336443, 1475581, 1629200, 1798808, 1986068,
        2192818, 2421087, 2673114, 2951373, 3258594, 3597792, 3972294, 4385776,
        4842295, 5346332, 5902831, 6517253, 7195629, 7944614, 8771558, 9684577,
        10692629, 11805606, 13034431, 14391160, 15889109, 17542976, 19368992, 21385073,
        23611006, 26068632, 28782069, 31777943, 35085654, 38737661, 42769801, 47221641,
        52136869, 57563718, 63555443, 70170840, 77474828, 85539082, 94442737, 104273167,
        115126838, 127110260, 140341028, 154948977, 171077457, 188884740, 208545572,
    ]
}

/// The experience at which a level begins.
pub open spec fn threshold(level: int) -> usize {
    level_table()[level - 1]
}

/// The experience at which each level begins, from level 1 on.
pub fn level_thresholds() -> (table: Vec<usize>)
    ensures
        table@ == level_table(),
        table.len() == MAX_VIRTUAL_LEVEL,
{
    let table = vec![
        0, 83, 174, 276, 388, 512, 650, 801,
        969, 1154, 1358, 1584, 1833, 2107, 2411, 2746,
        3115, 3523, 3973, 4470, 5018, 5624, 6291, 7028,
        7842, 8740, 9730, 10824, 12031, 13363, 14833, 16456,
        18247, 20224, 22406, 24815, 27473, 30408, 33648, 37224,
        41171, 45529, 50339, 55649, 61512, 67983, 75127, 83014,
        91721, 101333, 111945, 123660, 136594, 150872, 166636, 184040,
        203254, 224466, 247886, 273742, 302288, 333804, 368599, 407015,
        449428, 496254, 547953, 605032, 668051, 737627, 814445, 899257,
        992895, 1096278, 1210421, 1336443, 1475581, 1629200, 1798808, 1986068,
        2192818, 2421087, 2673114, 2951373, 3258594, 3597792, 3972294, 4385776,
        4842295, 5346332, 5902831, 6517253, 7195629, 7944614, 8771558, 9684577,
        10692629, 11805606, 13034431, 14391160, 15889109, 17542976, 19368992, 21385073,
        23611006, 26068632, 28782069, 31777943, 35085654, 38737661, 42769801, 47221641,
        52136869, 57563718, 63555443, 70170840, 77474828, 85539082, 94442737, 104273167,
        115126838, 127110260, 140341028, 154948977, 171077457, 188884740, 208545572,
    ];
    assert(table@ =~= level_table());
    table
}

/// The experience at which a level begins, or an error for a level that
/// does not exist.
pub fn level_to_xp(level: usize) -> (r: Result<usize, OsrsError>)
    ensures
        1 <= level <= MAX_VIRTUAL_LEVEL ==> r is Ok && r->Ok_0 == threshold(level as int),
        !(1 <= level <= MAX_VIRTUAL_LEVEL) ==> r is Err && r->Err_0 is InvalidLevel
            && r->Err_0->InvalidLevel_0 == level,
{
    let table = level_thresholds();
    if 1 <= level && level <= table.len() {
        Ok(table[level - 1])
    } else {
        Err(OsrsError::InvalidLevel(level))
    }
}

/// The level that a player with so much experience has: the highest level
/// that begins at no more than that.
pub fn xp_to_level(xp: usize) -> (level: usize)
    ensures
        1 <= level <= MAX_VIRTUAL_LEVEL,
        threshold(level as int) <= xp,
        forall|higher: int|
            level < higher <= MAX_VIRTUAL_LEVEL ==> xp < #[trigger] threshold(higher),
{
    let table = level_thresholds();
    assert(table[0] == 0);
    let mut level: usize = table.len();
    while table[level - 1] > xp
        invariant
            1 <= level <= MAX_VIRTUAL_LEVEL,
            table@ == level_table(),
            table.len() == MAX_VIRTUAL_LEVEL,
            table[0] == 0,
            forall|higher: int|
                level < higher <= MAX_VIRTUAL_LEVEL ==> xp < #[trigger] threshold(higher),
        decreases level,
    {
        level = level - 1;
    }
    level
}

} // verus!
