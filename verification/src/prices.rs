//! The latest prices of the Grand Exchange, item by item.

use std::collections::HashMap;
use vstd::prelude::*;

verus! {

/// The recent trades of one item: the latest prices at which it was bought
/// and sold at once, each with the time of that trade.
#[derive(Copy, Clone, Debug, PartialEq, Eq)]
pub struct Item {
    pub high: Option<usize>,
    pub high_time: Option<usize>,
    pub low: Option<usize>,
    pub low_time: Option<usize>,
}

/// The latest price at which an item was bought at once, if the price
/// table lists the item and it has been bought lately.
pub open spec fn high_price(prices: Map<usize, Item>, item_id: usize) -> Option<usize> {
    if prices.contains_key(item_id) {
        prices[item_id].high
    } else {
        None
    }
}

impl Item {
    /// The recent trades of an item, from the price table that was loaded,
    /// or `None` if the table does not list the item.
    pub fn load(prices: &HashMap<usize, Item>, item_id: usize) -> (item: Option<Item>)
        ensures
            item is Some <==> prices@.contains_key(item_id),
            item matches Some(found) ==> found == prices@[item_id],
    {
        match prices.get(&item_id) {
            Some(item) => Some(*item),
            None => None,
        }
    }

    /// The latest price at which an item was bought at once.
    pub fn latest_high_price(prices: &HashMap<usize, Item>, item_id: usize) -> (price: Option<
        usize,
    >)
        ensures
            price == high_price(prices@, item_id),
    {
        match Item::load(prices, item_id) {
            Some(item) => item.high,
            None => None,
        }
    }
}

} // verus!
