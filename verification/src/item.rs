//! Items and their prices on the Grand Exchange.

use crate::text::{lowercase, to_lowercase};
use std::collections::HashMap;
use vstd::prelude::*;

verus! {

pub const ITEM_ID_COMPOST: usize = 6032;

pub const ITEM_ID_SUPERCOMPOST: usize = 6034;

pub const ITEM_ID_ULTRACOMPOST: usize = 21483;

pub const ITEM_ID_GRIMY_GUAM_LEAF: usize = 199;

pub const ITEM_ID_GRIMY_MARRENTILL: usize = 201;

pub const ITEM_ID_GRIMY_TARROMIN: usize = 203;

pub const ITEM_ID_GRIMY_HARRALANDER: usize = 205;

pub const ITEM_ID_GOUTWEED: usize = 3261;

pub const ITEM_ID_GRIMY_RANARR_WEED: usize = 207;

pub const ITEM_ID_GRIMY_TOADFLAX: usize = 3049;

pub const ITEM_ID_GRIMY_IRIT: usize = 209;

pub const ITEM_ID_GRIMY_AVANTOE: usize = 211;

pub const ITEM_ID_GRIMY_KWUARM: usize = 213;

pub const ITEM_ID_GRIMY_SNAPDRAGON: usize = 3051;

pub const ITEM_ID_GRIMY_CADANTINE: usize = 215;

pub const ITEM_ID_GRIMY_LANTADYME: usize = 2485;

pub const ITEM_ID_GRIMY_DWARF_WEED: usize = 217;

pub const ITEM_ID_GRIMY_TORSTOL: usize = 219;

pub const ITEM_ID_GUAM_SEED: usize = 5291;

pub const ITEM_ID_MARRENTILL_SEED: usize = 5292;

pub const ITEM_ID_TARROMIN_SEED: usize = 5293;

pub const ITEM_ID_HARRALANDER_SEED: usize = 5294;

pub const ITEM_ID_GOUT_TUBER: usize = 6311;

pub const ITEM_ID_RANARR_SEED: usize = 5295;

pub const ITEM_ID_TOADFLAX_SEED: usize = 5296;

pub const ITEM_ID_IRIT_SEED: usize = 5297;

pub const ITEM_ID_AVANTOE_SEED: usize = 5298;

pub const ITEM_ID_KWUARM_SEED: usize = 5299;

pub const ITEM_ID_SNAPDRAGON_SEED: usize = 5300;

pub const ITEM_ID_CADANTINE_SEED: usize = 5301;

pub const ITEM_ID_LANTADYME_SEED: usize = 5302;

pub const ITEM_ID_DWARF_WEED_SEED: usize = 5303;

pub const ITEM_ID_TORSTOL_SEED: usize = 5304;

pub const ITEM_ID_AIR_RUNE: usize = 556;

pub const ITEM_ID_WATER_RUNE: usize = 555;

pub const ITEM_ID_EARTH_RUNE: usize = 557;

pub const ITEM_ID_FIRE_RUNE: usize = 554;

pub const ITEM_ID_BODY_RUNE: usize = 559;

pub const ITEM_ID_MIND_RUNE: usize = 558;

pub const ITEM_ID_CHAOS_RUNE: usize = 562;

pub const ITEM_ID_DEATH_RUNE: usize = 560;

pub const ITEM_ID_BLOOD_RUNE: usize = 565;

pub const ITEM_ID_WRATH_RUNE: usize = 21880;

pub const ITEM_ID_COSMIC_RUNE: usize = 564;

pub const ITEM_ID_NATURE_RUNE: usize = 561;

pub const ITEM_ID_LAW_RUNE: usize = 563;

pub const ITEM_ID_ASTRAL_RUNE: usize = 9075;

pub const ITEM_ID_SOUL_RUNE: usize = 566;

/// Recent trades of one item: the latest prices at which it was bought and
/// sold at once, each with the time of that trade. A side that has not traded
/// recently is absent.
#[derive(Copy, Clone, Debug, PartialEq, Eq)]
pub struct ItemPrice {
    pub high: Option<usize>,
    pub high_time: Option<usize>,
    pub low: Option<usize>,
    pub low_time: Option<usize>,
}

impl ItemPrice {
    /// The average of the recent high and low prices, rounded down. With only
    /// one side known that side is the price; with neither, there is none.
    pub open spec fn spec_avg(self) -> Option<usize> {
        match (self.high, self.low) {
            (Some(high), Some(low)) => Some(((high + low) / 2) as usize),
            (Some(value), None) => Some(value),
            (None, Some(value)) => Some(value),
            (None, None) => None,
        }
    }

    /// The average of the recent high and low prices, rounded down.
    pub fn avg(&self) -> (r: Option<usize>)
        ensures
            r == self.spec_avg(),
    {
        match (self.high, self.low) {
            (Some(high), Some(low)) => {
                let sum: u128 = high as u128 + low as u128;
                Some((sum / 2) as usize)
            },
            (Some(value), None) => Some(value),
            (None, Some(value)) => Some(value),
            (None, None) => None,
        }
    }
}

/// The price at which `prices` lists the item `id`: the average of its recent
/// high and low, or nothing when the item is not listed or has no recent
/// trade.
pub open spec fn avg_price(prices: Map<usize, ItemPrice>, id: usize) -> Option<usize> {
    if prices.contains_key(id) {
        prices[id].spec_avg()
    } else {
        None
    }
}

/// A price that is missing counts as nothing in sums.
pub open spec fn price_or_zero(price: Option<usize>) -> int {
    match price {
        Some(p) => p as int,
        None => 0,
    }
}

/// The static description of an item.
#[derive(Clone, Debug)]
pub struct Item {
    pub id: usize,
    pub name: String,
    pub examine: String,
    pub members: bool,
    pub low_alch: Option<usize>,
    pub high_alch: Option<usize>,
    pub limit: Option<usize>,
    pub value: usize,
}

/// An item together with its recent trades, if it has any.
#[derive(Clone, Debug)]
pub struct ItemWithPrice {
    pub item: Item,
    pub price: Option<ItemPrice>,
}

/// The item list and the latest prices, as loaded once from the price
/// service. Every lookup is answered from this snapshot.
pub struct WikiItemClient {
    pub item_mapping: Vec<Item>,
    pub prices: HashMap<usize, ItemPrice>,
}

impl WikiItemClient {
    /// A client over an item list and a price table that have been loaded.
    pub fn new(item_mapping: Vec<Item>, prices: HashMap<usize, ItemPrice>) -> (c: WikiItemClient)
        ensures
            c.item_mapping == item_mapping,
            c.prices == prices,
    {
        WikiItemClient { item_mapping, prices }
    }

    /// The average price of the item `id`, or `None` when there is no recent
    /// trade data for it.
    pub fn get_avg_price(&self, id: usize) -> (r: Option<usize>)
        ensures
            r == avg_price(self.prices@, id),
    {
        match self.prices.get(&id) {
            Some(price) => price.avg(),
            None => None,
        }
    }
}

/// Whether `needle` stands somewhere in `hay`, character for character.
pub open spec fn is_substring(needle: Seq<char>, hay: Seq<char>) -> bool {
    exists|at: int|
        0 <= at <= hay.len() - needle.len() && #[trigger] hay.subrange(at, at + needle.len())
            == needle
}

/// Whether the name of an item matches a search: the search words stand
/// somewhere in the name, where upper and lower case count as the same.
pub open spec fn name_matches(name: Seq<char>, query: Seq<char>) -> bool {
    is_substring(lowercase(query), lowercase(name))
}

/// Tells whether `needle` stands somewhere in `hay`.
///
/// This is `str::contains` of the standard library with a string as the
/// pattern, which is true exactly if the pattern matches a substring.
#[verifier::external_body]
fn contains(hay: &str, needle: &str) -> (found: bool)
    ensures
        found == is_substring(needle@, hay@),
{
    hay.contains(needle)
}

impl Item {
    /// A copy of the item.
    pub fn duplicate(&self) -> (copy: Item)
        ensures
            copy == *self,
    {
        Item {
            id: self.id,
            name: self.name.clone(),
            examine: self.examine.clone(),
            members: self.members,
            low_alch: self.low_alch,
            high_alch: self.high_alch,
            limit: self.limit,
            value: self.value,
        }
    }
}

/// The price of each item of a list, where the price table has one.
pub open spec fn with_prices(items: Seq<Item>, prices: Map<usize, ItemPrice>) -> Seq<
    ItemWithPrice,
> {
    items.map(
        |i: int, item: Item|
            ItemWithPrice {
                item,
                price: if prices.contains_key(item.id) {
                    Some(prices[item.id])
                } else {
                    None
                },
            },
    )
}

impl WikiItemClient {
    /// The items that match a search, in the order of the item list.
    pub open spec fn spec_search(&self, query: Seq<char>) -> Seq<Item> {
        self.item_mapping@.filter(|item: Item| name_matches(item.name@, query))
    }

    /// Searches the items by name. An item is found if the search words
    /// stand somewhere in its name, where upper and lower case count as the
    /// same.
    pub fn search(&self, query: &str) -> (found: Vec<Item>)
        ensures
            found@ == self.spec_search(query@),
    {
        let lower_query = to_lowercase(query);
        let mut found: Vec<Item> = Vec::new();
        let ghost wanted = |item: Item| name_matches(item.name@, query@);
        let mut i: usize = 0;
        while i < self.item_mapping.len()
            invariant
                i <= self.item_mapping.len(),
                lower_query@ == lowercase(query@),
                wanted == |item: Item| name_matches(item.name@, query@),
                found@ == self.item_mapping@.take(i as int).filter(wanted),
            decreases self.item_mapping.len() - i,
        {
            let item = &self.item_mapping[i];
            let lower_name = to_lowercase(item.name.as_str());
            proof {
                let next = self.item_mapping@.take(i + 1);
                assert(next.drop_last() =~= self.item_mapping@.take(i as int));
                assert(next.last() == *item);
                reveal(Seq::filter);
            }
            if contains(lower_name.as_str(), lower_query.as_str()) {
                found.push(item.duplicate());
            }
            i = i + 1;
        }
        proof {
            assert(self.item_mapping@.take(self.item_mapping.len() as int) =~= self.item_mapping@);
        }
        found
    }

    /// Searches the items by name, as `search` does, and looks up the
    /// price of each item found.
    pub fn search_prices(&self, query: &str) -> (found: Vec<ItemWithPrice>)
        ensures
            found@ == with_prices(self.spec_search(query@), self.prices@),
    {
        let items = self.search(query);
        let mut found: Vec<ItemWithPrice> = Vec::new();
        let mut i: usize = 0;
        while i < items.len()
            invariant
                i <= items.len(),
                items@ == self.spec_search(query@),
                found@ == with_prices(items@.take(i as int), self.prices@),
            decreases items.len() - i,
        {
            let item = items[i].duplicate();
            let price = match self.prices.get(&item.id) {
                Some(p) => Some(*p),
                None => None,
            };
            proof {
                let next = with_prices(items@.take(i + 1), self.prices@);
                assert(next =~= found@.push(ItemWithPrice { item, price }));
            }
            found.push(ItemWithPrice { item, price });
            i = i + 1;
        }
        proof {
            assert(items@.take(items.len() as int) =~= items@);
        }
        found
    }
}

} // verus!
