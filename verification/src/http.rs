//! Addresses on the web.

use crate::text::{digit_char, join, join_words};
use vstd::prelude::*;
use vstd::string::StringExecFns;
use vstd::utf8::encode_utf8;

verus! {

/// Whether a byte can stand in a query as it is: a letter, a digit, or one
/// of `-`, `.`, `_` and `~`.
pub open spec fn is_unreserved(byte: u8) -> bool {
    ||| 0x30 <= byte <= 0x39
    ||| 0x41 <= byte <= 0x5a
    ||| 0x61 <= byte <= 0x7a
    ||| byte == 0x2d
    ||| byte == 0x2e
    ||| byte == 0x5f
    ||| byte == 0x7e
}

/// A number below sixteen as a hexadecimal digit, in upper case.
pub open spec fn hex_digit(d: nat) -> char {
    if d < 10 {
        digit_char(d)
    } else if d == 10 {
        'A'
    } else if d == 11 {
        'B'
    } else if d == 12 {
        'C'
    } else if d == 13 {
        'D'
    } else if d == 14 {
        'E'
    } else {
        'F'
    }
}

/// One byte as it stands in a query: itself, or a percent sign and its two
/// hexadecimal digits.
pub open spec fn encoded_byte(byte: u8) -> Seq<char> {
    if is_unreserved(byte) {
        seq![byte as char]
    } else {
        seq!['%', hex_digit((byte / 16) as nat), hex_digit((byte % 16) as nat)]
    }
}

/// The bytes of a text as they stand in a query.
pub open spec fn percent_encoded(bytes: Seq<u8>) -> Seq<char>
    decreases bytes.len(),
{
    if bytes.len() == 0 {
        Seq::<char>::empty()
    } else {
        percent_encoded(bytes.drop_last()) + encoded_byte(bytes.last())
    }
}

/// Encodes a text for a query.
///
/// This is `encode` of urlencoding, which percent-encodes every byte of
/// the text in UTF-8 except letters, digits, `-`, `.`, `_` and `~`, with
/// hexadecimal digits in upper case.
#[verifier::external_body]
fn encode(value: &str) -> (text: String)
    ensures
        text@ == percent_encoded(encode_utf8(value@)),
{
    urlencoding::encode(value).into_owned()
}

/// One parameter of a query: its name, an equals sign and its value,
/// encoded.
pub open spec fn param_text(param: (Seq<char>, Seq<char>)) -> Seq<char> {
    param.0 + "="@ + percent_encoded(encode_utf8(param.1))
}

/// The parameters of a query as they stand in an address.
pub open spec fn params_text(params: Seq<(Seq<char>, Seq<char>)>) -> Seq<Seq<char>> {
    params.map(|i: int, param: (Seq<char>, Seq<char>)| param_text(param))
}

/// Names and values as plain text.
pub open spec fn pair_views(params: Seq<(String, String)>) -> Seq<(Seq<char>, Seq<char>)> {
    params.map(|i: int, param: (String, String)| (param.0@, param.1@))
}

/// The address of a page with a query: the path, a question mark, and the
/// parameters with a comma between each two.
pub open spec fn url_text(path: Seq<char>, params: Seq<(Seq<char>, Seq<char>)>) -> Seq<char> {
    path + "?"@ + join(params_text(params), ","@)
}

/// Builds the address of a page with a query. The value of every
/// parameter is encoded.
pub fn url(path: &str, query_params: &Vec<(String, String)>) -> (text: String)
    ensures
        text@ == url_text(path@, pair_views(query_params@)),
{
    let mut params: Vec<String> = Vec::new();
    let mut i: usize = 0;
    while i < query_params.len()
        invariant
            i <= query_params.len(),
            crate::text::views(params@) == params_text(pair_views(query_params@.take(i as int))),
        decreases query_params.len() - i,
    {
        let mut param = query_params[i].0.clone();
        param.append("=");
        param.append(encode(query_params[i].1.as_str()).as_str());
        proof {
            let next = params_text(pair_views(query_params@.take(i + 1)));
            assert(next =~= crate::text::views(params@).push(param@));
            assert(crate::text::views(params@.push(param)) =~= crate::text::views(params@).push(
                param@,
            ));
        }
        params.push(param);
        i = i + 1;
    }
    proof {
        assert(query_params@.take(query_params.len() as int) =~= query_params@);
    }
    let mut text = String::from_str(path);
    text.append("?");
    text.append(join_words(&params, ",").as_str());
    text
}

} // verus!
