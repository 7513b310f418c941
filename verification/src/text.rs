//! Text: joining words and writing numbers.

use vstd::prelude::*;
use vstd::string::StringExecFns;

verus! {

/// The parts of a list, written one after the other with `sep` between
/// each two.
pub open spec fn join(parts: Seq<Seq<char>>, sep: Seq<char>) -> Seq<char>
    decreases parts.len(),
{
    if parts.len() == 0 {
        Seq::<char>::empty()
    } else if parts.len() == 1 {
        parts[0]
    } else {
        join(parts.drop_last(), sep) + sep + parts.last()
    }
}

/// The views of a list of strings.
pub open spec fn views(words: Seq<String>) -> Seq<Seq<char>> {
    words.map(|i: int, w: String| w@)
}

/// Writes the words of a list one after the other, with `sep` between each
/// two.
pub fn join_words(words: &Vec<String>, sep: &str) -> (text: String)
    ensures
        text@ == join(views(words@), sep@),
{
    let mut text = String::new();
    let mut i: usize = 0;
    while i < words.len()
        invariant
            i <= words.len(),
            text@ == join(views(words@).take(i as int), sep@),
        decreases words.len() - i,
    {
        proof {
            let next = views(words@).take(i + 1);
            assert(next.drop_last() =~= views(words@).take(i as int));
            assert(next.last() == words@[i as int]@);
            if i == 0 {
                assert(next[0] == words@[0]@);
                assert(Seq::<char>::empty() + words@[0]@ =~= words@[0]@);
            }
        }
        if i > 0 {
            text.append(sep);
        }
        text.append(words[i].as_str());
        i = i + 1;
    }
    proof {
        assert(views(words@).take(words.len() as int) =~= views(words@));
    }
    text
}

/// The character that stands for a digit.
pub open spec fn digit_char(d: nat) -> char {
    if d == 0 {
        '0'
    } else if d == 1 {
        '1'
    } else if d == 2 {
        '2'
    } else if d == 3 {
        '3'
    } else if d == 4 {
        '4'
    } else if d == 5 {
        '5'
    } else if d == 6 {
        '6'
    } else if d == 7 {
        '7'
    } else if d == 8 {
        '8'
    } else {
        '9'
    }
}

/// A number written in decimal digits, with no leading zero.
pub open spec fn decimal(n: nat) -> Seq<char>
    decreases n,
{
    if n < 10 {
        seq![digit_char(n)]
    } else {
        decimal(n / 10).push(digit_char(n % 10))
    }
}

/// A number below a thousand written in exactly three digits.
pub open spec fn three_digits(n: nat) -> Seq<char> {
    seq![digit_char(n / 100), digit_char(n / 10 % 10), digit_char(n % 10)]
}

/// A number written in decimal digits, with a comma before every group of
/// three digits counted from the right.
pub open spec fn grouped_decimal(n: nat) -> Seq<char>
    decreases n,
{
    if n < 1000 {
        decimal(n)
    } else {
        grouped_decimal(n / 1000).push(',') + three_digits(n % 1000)
    }
}

/// Writes a number in decimal digits.
///
/// This is `to_string` of the standard library, which writes an unsigned
/// integer in decimal with no sign, no padding and no leading zero.
#[verifier::external_body]
pub(crate) fn usize_to_string(n: usize) -> (text: String)
    ensures
        text@ == decimal(n as nat),
{
    n.to_string()
}

/// The lower-case form of a text, as the standard library makes it.
pub uninterp spec fn lowercase(text: Seq<char>) -> Seq<char>;

/// Makes a text lower-case.
///
/// This is `str::to_lowercase` of the standard library, which lower-cases
/// by the Unicode rules and depends on nothing but the text.
#[verifier::external_body]
pub(crate) fn to_lowercase(text: &str) -> (lower: String)
    ensures
        lower@ == lowercase(text@),
{
    text.to_lowercase()
}

} // verus!
