//! Runes and spells.

use crate::error::FarmError;
use crate::item::{
    avg_price, price_or_zero, ItemPrice, WikiItemClient, ITEM_ID_AIR_RUNE, ITEM_ID_ASTRAL_RUNE,
    ITEM_ID_BLOOD_RUNE, ITEM_ID_BODY_RUNE, ITEM_ID_CHAOS_RUNE, ITEM_ID_COSMIC_RUNE,
    ITEM_ID_DEATH_RUNE, ITEM_ID_EARTH_RUNE, ITEM_ID_FIRE_RUNE, ITEM_ID_LAW_RUNE,
    ITEM_ID_MIND_RUNE, ITEM_ID_NATURE_RUNE, ITEM_ID_SOUL_RUNE, ITEM_ID_WATER_RUNE,
    ITEM_ID_WRATH_RUNE,
};
use crate::ratio::Ratio;
use vstd::prelude::*;

verus! {

/// Runes are what spells are cast with. Combination runes are left out.
#[derive(Copy, Clone, Debug, PartialEq, Eq)]
pub enum Rune {
    Air,
    Water,
    Earth,
    Fire,
    Body,
    Mind,
    Chaos,
    Death,
    Blood,
    Wrath,
    Cosmic,
    Nature,
    Law,
    Astral,
    Soul,
}

impl Rune {
    /// The item that this rune is traded as.
    pub open spec fn spec_item_id(self) -> usize {
        match self {
            Rune::Air => ITEM_ID_AIR_RUNE,
            Rune::Water => ITEM_ID_WATER_RUNE,
            Rune::Earth => ITEM_ID_EARTH_RUNE,
            Rune::Fire => ITEM_ID_FIRE_RUNE,
            Rune::Body => ITEM_ID_BODY_RUNE,
            Rune::Mind => ITEM_ID_MIND_RUNE,
            Rune::Chaos => ITEM_ID_CHAOS_RUNE,
            Rune::Death => ITEM_ID_DEATH_RUNE,
            Rune::Blood => ITEM_ID_BLOOD_RUNE,
            Rune::Wrath => ITEM_ID_WRATH_RUNE,
            Rune::Cosmic => ITEM_ID_COSMIC_RUNE,
            Rune::Nature => ITEM_ID_NATURE_RUNE,
            Rune::Law => ITEM_ID_LAW_RUNE,
            Rune::Astral => ITEM_ID_ASTRAL_RUNE,
            Rune::Soul => ITEM_ID_SOUL_RUNE,
        }
    }

    /// The item that this rune is traded as.
    #[verifier::when_used_as_spec(spec_item_id)]
    pub fn item_id(self) -> (id: usize)
        ensures
            id == self.spec_item_id(),
    {
        match self {
            Rune::Air => ITEM_ID_AIR_RUNE,
            Rune::Water => ITEM_ID_WATER_RUNE,
            Rune::Earth => ITEM_ID_EARTH_RUNE,
            Rune::Fire => ITEM_ID_FIRE_RUNE,
            Rune::Body => ITEM_ID_BODY_RUNE,
            Rune::Mind => ITEM_ID_MIND_RUNE,
            Rune::Chaos => ITEM_ID_CHAOS_RUNE,
            Rune::Death => ITEM_ID_DEATH_RUNE,
            Rune::Blood => ITEM_ID_BLOOD_RUNE,
            Rune::Wrath => ITEM_ID_WRATH_RUNE,
            Rune::Cosmic => ITEM_ID_COSMIC_RUNE,
            Rune::Nature => ITEM_ID_NATURE_RUNE,
            Rune::Law => ITEM_ID_LAW_RUNE,
            Rune::Astral => ITEM_ID_ASTRAL_RUNE,
            Rune::Soul => ITEM_ID_SOUL_RUNE,
        }
    }
}

/// The highest level that a skill can be trained to.
pub const MAX_LEVEL: usize = 99;

/// The magic level from which Resurrect Crops can be cast.
pub const RESURRECT_CROPS_LEVEL: usize = 78;

/// The price of a list of runes with their quantities. A rune without a
/// recent trade counts as free.
pub open spec fn runes_cost(runes: Seq<(Rune, usize)>, prices: Map<usize, ItemPrice>) -> int
    decreases runes.len(),
{
    if runes.len() == 0 {
        0
    } else {
        runes_cost(runes.drop_last(), prices) + price_or_zero(
            avg_price(prices, runes.last().0.item_id()),
        ) * runes.last().1
    }
}

/// The chance that Resurrect Crops succeeds at magic level `level`: one half
/// at the level that the spell requires, rising in a straight line to three
/// quarters at level 99, and staying there for any higher level.
pub open spec fn resurrect_success(level: int) -> real {
    let capped = if level > MAX_LEVEL {
        MAX_LEVEL as int
    } else {
        level
    };
    1real / 2real + (capped - RESURRECT_CROPS_LEVEL) as real / (MAX_LEVEL
        - RESURRECT_CROPS_LEVEL) as real * (3real / 4real - 1real / 2real)
}

/// The success chance counted in 84ths: `level - 36` up to level 99.
pub proof fn lemma_resurrect_success_in_84ths(level: int)
    requires
        RESURRECT_CROPS_LEVEL <= level,
    ensures
        resurrect_success(level) == (if level > 99 {
            63int
        } else {
            level - 36
        }) as real / 84real,
        1real / 2real <= resurrect_success(level) <= 3real / 4real,
{
    let capped = if level > 99 {
        99int
    } else {
        level
    };
    let c = capped as real;
    assert((capped - 78) as real == c - 78real);
    assert((capped - 36) as real == c - 36real);
    assert((99 - 78) as real == 21real);
    assert(1real / 2real + (c - 78real) / 21real * (3real / 4real - 1real / 2real) == (c - 36real)
        / 84real) by (nonlinear_arith);
    assert(1real / 2real <= (c - 36real) / 84real <= 3real / 4real) by (nonlinear_arith)
        requires
            78real <= c <= 99real,
    ;
}

/// A spell.
#[derive(Copy, Clone, Debug, PartialEq, Eq)]
pub enum Spell {
    ResurrectCrops,
}

impl Spell {
    /// The magic level required to cast the spell.
    pub open spec fn spec_level(self) -> usize {
        match self {
            Spell::ResurrectCrops => RESURRECT_CROPS_LEVEL,
        }
    }

    /// The magic level required to cast the spell.
    #[verifier::when_used_as_spec(spec_level)]
    pub fn level(self) -> (level: usize)
        ensures
            level == self.spec_level(),
    {
        match self {
            Spell::ResurrectCrops => RESURRECT_CROPS_LEVEL,
        }
    }

    /// The runes that one cast of the spell uses up, each with its quantity.
    pub open spec fn spec_runes(self) -> Seq<(Rune, usize)> {
        match self {
            Spell::ResurrectCrops => seq![
                (Rune::Earth, 25usize),
                (Rune::Nature, 12usize),
                (Rune::Blood, 8usize),
                (Rune::Soul, 8usize),
            ],
        }
    }

    /// The runes that one cast of the spell uses up, each with its quantity.
    pub fn runes(self) -> (runes: Vec<(Rune, usize)>)
        ensures
            runes@ == self.spec_runes(),
    {
        match self {
            Spell::ResurrectCrops => {
                let runes = vec![
                    (Rune::Earth, 25usize),
                    (Rune::Nature, 12usize),
                    (Rune::Blood, 8usize),
                    (Rune::Soul, 8usize),
                ];
                assert(runes@ =~= self.spec_runes());
                runes
            },
        }
    }

    /// The price of the runes for one cast, with no staff or other item that
    /// saves any. A rune without a recent trade counts as free.
    pub fn rune_cost(self, client: &WikiItemClient) -> (cost: u128)
        ensures
            cost == runes_cost(self.spec_runes(), client.prices@),
            cost <= 53 * usize::MAX,
    {
        let runes = self.runes();
        let mut sum: u128 = 0;
        let mut i: usize = 0;
        while i < runes.len()
            invariant
                i <= runes.len(),
                runes@ == Spell::ResurrectCrops.spec_runes(),
                sum == runes_cost(runes@.take(i as int), client.prices@),
                sum <= i * 25 * usize::MAX,
            decreases runes.len() - i,
        {
            let (rune, quantity) = runes[i];
            assert(quantity <= 25);
            let price: usize = match client.get_avg_price(rune.item_id()) {
                Some(p) => p,
                None => 0,
            };
            assert(price * quantity <= 25 * usize::MAX) by (nonlinear_arith)
                requires
                    0 <= price <= usize::MAX,
                    0 <= quantity <= 25,
            ;
            proof {
                let next = runes@.take(i + 1);
                assert(next.drop_last() =~= runes@.take(i as int));
                assert(next.last() == runes@[i as int]);
            }
            sum = sum + (price as u128) * (quantity as u128);
            i = i + 1;
        }
        proof {
            assert(runes@.take(runes.len() as int) =~= runes@);
            lemma_runes_cost_bound(self.spec_runes(), client.prices@);
        }
        sum
    }

    /// The chance that Resurrect Crops succeeds when cast at magic level
    /// `level`. Below the required level the spell cannot be cast at all, and
    /// that is an error rather than a chance of zero.
    pub fn resurrect_crops_chance(level: usize) -> (r: Result<Ratio, FarmError>)
        ensures
            level < RESURRECT_CROPS_LEVEL ==> r == Err::<Ratio, FarmError>(
                FarmError::MagicLevelTooLow { required: RESURRECT_CROPS_LEVEL, actual: level },
            ),
            level >= RESURRECT_CROPS_LEVEL ==> r is Ok && r->Ok_0@ == resurrect_success(
                level as int,
            ),
    {
        let required: usize = Spell::ResurrectCrops.level();
        if level < required {
            Err(FarmError::MagicLevelTooLow { required, actual: level })
        } else {
            let capped: usize = if level > MAX_LEVEL {
                MAX_LEVEL
            } else {
                level
            };
            proof {
                lemma_resurrect_success_in_84ths(level as int);
            }
            Ok(Ratio::from_parts((capped - 36) as u128, 84))
        }
    }
}

/// One cast of Resurrect Crops uses 53 runes, so it costs at most 53 times
/// the highest price.
pub proof fn lemma_runes_cost_bound(runes: Seq<(Rune, usize)>, prices: Map<usize, ItemPrice>)
    requires
        runes == Spell::ResurrectCrops.spec_runes(),
    ensures
        0 <= runes_cost(runes, prices) <= 53 * usize::MAX,
{
    let p = |i: int| price_or_zero(avg_price(prices, runes[i].0.item_id()));
    let r3 = runes.drop_last();
    let r2 = r3.drop_last();
    let r1 = r2.drop_last();
    let r0 = r1.drop_last();
    assert(r0.len() == 0);
    assert(runes_cost(r0, prices) == 0);
    assert(runes_cost(r1, prices) == p(0) * 25);
    assert(runes_cost(r2, prices) == p(0) * 25 + p(1) * 12);
    assert(runes_cost(r3, prices) == p(0) * 25 + p(1) * 12 + p(2) * 8);
    assert(runes_cost(runes, prices) == p(0) * 25 + p(1) * 12 + p(2) * 8 + p(3) * 8);
}

} // verus!
