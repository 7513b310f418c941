//! Numbers and prices as they are shown to the player.

use crate::text::grouped_decimal;
use num_format::{Locale, ToFormattedString};
use vstd::prelude::*;
use vstd::string::StringExecFns;

verus! {

/// Writes a number the English way, with a comma before every group of
/// three digits.
///
/// This is `to_formatted_string` of num-format with its English locale,
/// whose separator is the comma and whose grouping is the standard one of
/// three digits; the locale adds nothing else to a number without a sign.
#[verifier::external_body]
pub fn fmt_int(num: usize) -> (text: String)
    ensures
        text@ == grouped_decimal(num as nat),
{
    num.to_formatted_string(&Locale::en)
}

/// What is shown for a price: the number with its commas, or a dash for an
/// item that has no recent trade.
pub open spec fn price_text(price: Option<usize>) -> Seq<char> {
    match price {
        Some(p) => grouped_decimal(p as nat),
        None => "\u{2014}"@,
    }
}

/// Writes a price: the number with its commas, or a dash for an item that
/// has no recent trade.
pub fn fmt_price(price: Option<usize>) -> (text: String)
    ensures
        text@ == price_text(price),
{
    match price {
        Some(p) => fmt_int(p),
        None => String::from_str("\u{2014}"),
    }
}

} // verus!
