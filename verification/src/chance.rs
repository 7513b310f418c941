//! Reading a chance that was typed in: a decimal, a percentage, or a
//! fraction of two decimals.

use crate::drops::{digits_value, is_digit};
use crate::error::OsrsError;
use crate::math::{ipow, lemma_ipow_exponent_ordered, lemma_ipow_positive, pow_u128};
use crate::ratio::Ratio;
use crate::reals::{lemma_average_count, lemma_quotient_of_quotients, lemma_quotient_within_one};
use vstd::prelude::*;
use vstd::string::{StrSliceExecFns, StringExecFns};

verus! {

/// The most digits that a decimal may have to be read.
pub const MAX_DIGITS: usize = 19;

/// Whether a character is white space.
pub open spec fn is_space(c: char) -> bool {
    ||| '\u{9}' <= c <= '\u{d}'
    ||| c == ' '
    ||| c == '\u{85}'
    ||| c == '\u{a0}'
    ||| c == '\u{1680}'
    ||| '\u{2000}' <= c <= '\u{200a}'
    ||| c == '\u{2028}'
    ||| c == '\u{2029}'
    ||| c == '\u{202f}'
    ||| c == '\u{205f}'
    ||| c == '\u{3000}'
}

/// Whether a character can stand in a decimal: a digit or the point.
pub open spec fn is_numeral(c: char) -> bool {
    is_digit(c) || c == '.'
}

/// Where the white space that starts at `from` comes to an end.
pub open spec fn after_spaces(text: Seq<char>, from: int) -> int
    decreases text.len() - from,
{
    if 0 <= from < text.len() && is_space(text[from]) {
        after_spaces(text, from + 1)
    } else {
        from
    }
}

/// Where the digits and points that start at `from` come to an end.
pub open spec fn after_numerals(text: Seq<char>, from: int) -> int
    decreases text.len() - from,
{
    if 0 <= from < text.len() && is_numeral(text[from]) {
        after_numerals(text, from + 1)
    } else {
        from
    }
}

/// What may follow the first decimal of a chance.
pub enum Tail {
    /// Nothing: the decimal is the chance.
    Nothing,
    /// A percent sign: the decimal counts hundredths.
    Percent,
    /// A stroke and a second decimal, by which the first is divided.
    Over(Seq<char>),
}

/// The pieces of a text that is laid out as a chance: white space, digits
/// and points, white space; then nothing more, or a percent sign and white
/// space, or a stroke, white space, digits and points, and white space. A
/// text that is laid out otherwise has no pieces.
pub open spec fn pieces_of(text: Seq<char>) -> Option<(Seq<char>, Tail)> {
    let start = after_spaces(text, 0);
    let end = after_numerals(text, start);
    let mark = after_spaces(text, end);
    let first = text.subrange(start, end);
    if end == start {
        None
    } else if mark == text.len() {
        Some((first, Tail::Nothing))
    } else if text[mark] == '%' {
        if after_spaces(text, mark + 1) == text.len() {
            Some((first, Tail::Percent))
        } else {
            None
        }
    } else if text[mark] == '/' {
        let second_start = after_spaces(text, mark + 1);
        let second_end = after_numerals(text, second_start);
        if second_end > second_start && after_spaces(text, second_end) == text.len() {
            Some((first, Tail::Over(text.subrange(second_start, second_end))))
        } else {
            None
        }
    } else {
        None
    }
}

/// Whether a text is a decimal: digits with at most one point among them,
/// before them or behind them, and one digit at least.
pub open spec fn is_decimal(text: Seq<char>) -> bool {
    &&& forall|i: int| 0 <= i < text.len() ==> is_numeral(#[trigger] text[i])
    &&& forall|i: int, j: int|
        0 <= i < text.len() && 0 <= j < text.len() && #[trigger] text[i] == '.'
            && #[trigger] text[j] == '.' ==> i == j
    &&& exists|i: int| 0 <= i < text.len() && is_digit(#[trigger] text[i])
}

/// The digits of a text in their order, with everything else left out.
pub open spec fn digits_of(text: Seq<char>) -> Seq<char> {
    text.filter(|c: char| is_digit(c))
}

/// How many digits of a decimal stand behind its point.
pub open spec fn places(text: Seq<char>) -> nat {
    if text.contains('.') {
        (text.len() - 1 - text.index_of('.')) as nat
    } else {
        0
    }
}

/// Whether a decimal can be read: it has no more than `MAX_DIGITS` digits.
pub open spec fn is_readable(text: Seq<char>) -> bool {
    is_decimal(text) && digits_of(text).len() <= MAX_DIGITS
}

/// The number that a decimal stands for: the number that its digits stand
/// for with the point left out, divided by ten for every digit behind the
/// point.
pub open spec fn decimal_value(text: Seq<char>) -> real {
    digits_value(digits_of(text)) as real / ipow(10, places(text)) as real
}

/// Why a text is not read as a chance.
#[derive(Copy, Clone, Debug, PartialEq, Eq)]
pub enum ChanceFault {
    /// The text is not laid out as a chance, or one of its decimals is
    /// none or has too many digits.
    Unreadable,
    /// The number that the text stands for is no chance: it is above one,
    /// or it is divided by zero.
    OutOfRange,
}

/// The number that the pieces of a text stand for, if the division can be
/// made.
pub open spec fn quotient_of(first: Seq<char>, tail: Tail) -> Option<real> {
    match tail {
        Tail::Nothing => Some(decimal_value(first)),
        Tail::Percent => Some(decimal_value(first) / 100real),
        Tail::Over(second) => if decimal_value(second) == 0real {
            None
        } else {
            Some(decimal_value(first) / decimal_value(second))
        },
    }
}

/// The chance that a text stands for, or why it stands for none.
pub open spec fn chance_of(text: Seq<char>) -> Result<real, ChanceFault> {
    match pieces_of(text) {
        None => Err(ChanceFault::Unreadable),
        Some((first, tail)) => {
            if !is_readable(first) || (tail matches Tail::Over(second) && !is_readable(second)) {
                Err(ChanceFault::Unreadable)
            } else {
                match quotient_of(first, tail) {
                    Some(value) if value <= 1real => Ok(value),
                    _ => Err(ChanceFault::OutOfRange),
                }
            }
        },
    }
}

/// What is said of a text that is not read as a chance.
pub open spec fn fault_text(fault: ChanceFault, text: Seq<char>) -> Seq<char> {
    match fault {
        ChanceFault::Unreadable => "Invalid probability: "@ + text
            + "; Try a decimal, percentage, or fraction."@,
        ChanceFault::OutOfRange => "Probability must be in range [0, 1], but got: "@ + text,
    }
}

/// Tells whether a character is white space.
pub fn is_white_space(c: char) -> (space: bool)
    ensures
        space == is_space(c),
{
    ('\u{9}' <= c && c <= '\u{d}') || c == ' ' || c == '\u{85}' || c == '\u{a0}' || c == '\u{1680}'
        || ('\u{2000}' <= c && c <= '\u{200a}') || c == '\u{2028}' || c == '\u{2029}' || c
        == '\u{202f}' || c == '\u{205f}' || c == '\u{3000}'
}

/// Finds where the white space that starts at `from` comes to an end.
fn skip_spaces(text: &str, from: usize) -> (end: usize)
    requires
        from <= text@.len(),
    ensures
        end == after_spaces(text@, from as int),
        from <= end <= text@.len(),
{
    let len = text.unicode_len();
    let mut i: usize = from;
    while i < len && is_white_space(text.get_char(i))
        invariant
            from <= i <= len,
            len == text@.len(),
            after_spaces(text@, from as int) == after_spaces(text@, i as int),
        decreases len - i,
    {
        i = i + 1;
    }
    i
}

/// Finds where the digits and points that start at `from` come to an end.
fn skip_numerals(text: &str, from: usize) -> (end: usize)
    requires
        from <= text@.len(),
    ensures
        end == after_numerals(text@, from as int),
        from <= end <= text@.len(),
        forall|i: int| from <= i < end ==> is_numeral(#[trigger] text@[i]),
{
    let len = text.unicode_len();
    let mut i: usize = from;
    while i < len && is_numeral_char(text.get_char(i))
        invariant
            from <= i <= len,
            len == text@.len(),
            after_numerals(text@, from as int) == after_numerals(text@, i as int),
            forall|j: int| from <= j < i ==> is_numeral(#[trigger] text@[j]),
        decreases len - i,
    {
        i = i + 1;
    }
    i
}

/// Tells whether a character can stand in a decimal.
fn is_numeral_char(c: char) -> (numeral: bool)
    ensures
        numeral == is_numeral(c),
{
    ('0' <= c && c <= '9') || c == '.'
}

/// A decimal as it is read: the number that its digits stand for, and ten
/// to the number of digits behind the point.
pub struct Decimal {
    pub digits: u128,
    pub scale: u128,
}

impl Decimal {
    /// Whether these are the figures of the decimal `text`.
    pub open spec fn is_reading_of(self, text: Seq<char>) -> bool {
        &&& self.digits == digits_value(digits_of(text))
        &&& self.scale == ipow(10, places(text))
        &&& self.digits < 10000000000000000000
        &&& 1 <= self.scale <= 10000000000000000000
    }
}

/// Ten to the nineteenth, in figures.
proof fn lemma_ten_to_the_nineteenth()
    ensures
        ipow(10, 19) == 10000000000000000000,
{
    reveal_with_fuel(ipow, 20);
}

/// Reads the decimal that stands from `from` up to `to` in a text.
fn read_decimal(text: &str, from: usize, to: usize) -> (r: Option<Decimal>)
    requires
        from <= to <= text@.len(),
        forall|i: int| from <= i < to ==> is_numeral(#[trigger] text@[i]),
    ensures
        r is Some <==> is_readable(text@.subrange(from as int, to as int)),
        r matches Some(decimal) ==> decimal.is_reading_of(text@.subrange(from as int, to as int)),
{
    let ghost piece = text@.subrange(from as int, to as int);
    let ghost digit = |c: char| is_digit(c);
    let len: usize = to - from;
    let mut value: u128 = 0;
    let mut count: usize = 0;
    let mut point: Option<usize> = None;
    let mut i: usize = 0;
    proof {
        assert(piece.take(0) =~= Seq::<char>::empty());
        reveal(Seq::filter);
        assert(ipow(10, 0) == 1);
    }
    while i < len
        invariant
            i <= len,
            len == to - from,
            from <= to <= text@.len(),
            piece == text@.subrange(from as int, to as int),
            digit == |c: char| is_digit(c),
            forall|j: int| 0 <= j < len ==> is_numeral(#[trigger] piece[j]),
            count == piece.take(i as int).filter(digit).len(),
            count <= MAX_DIGITS,
            value == digits_value(piece.take(i as int).filter(digit)),
            value < ipow(10, count as nat),
            match point {
                None => count == i && forall|j: int| 0 <= j < i ==> is_digit(#[trigger] piece[j]),
                Some(p) => p < i && piece[p as int] == '.' && count == i - 1 && forall|j: int|
                    0 <= j < i && j != p ==> is_digit(#[trigger] piece[j]),
            },
        decreases len - i,
    {
        let c = text.get_char(from + i);
        let ghost before = piece.take(i as int);
        let ghost next = piece.take(i + 1);
        proof {
            assert(c == piece[i as int]);
            assert(next.drop_last() =~= before);
            assert(next.last() == c);
            reveal(Seq::filter);
            lemma_ten_to_the_nineteenth();
            lemma_ipow_exponent_ordered(10, count as nat, 19);
        }
        if c == '.' {
            if point.is_some() {
                proof {
                    let p = point->Some_0 as int;
                    assert(piece[p] == '.' && piece[i as int] == '.' && p != i);
                }
                return None;
            }
            point = Some(i);
            assert(next.filter(digit) == before.filter(digit));
        } else {
            assert(is_digit(c));
            assert(next.filter(digit) == before.filter(digit).push(c));
            assert(before.filter(digit).push(c).drop_last() =~= before.filter(digit));
            if count == MAX_DIGITS {
                proof {
                    lemma_filter_grows(piece, i + 1);
                }
                return None;
            }
            let figure: u128 = (c as u32 - '0' as u32) as u128;
            value = value * 10 + figure;
            count = count + 1;
            assert(ipow(10, count as nat) == 10 * ipow(10, (count - 1) as nat));
        }
        i = i + 1;
    }
    proof {
        assert(piece.take(len as int) =~= piece);
        lemma_ten_to_the_nineteenth();
        lemma_ipow_exponent_ordered(10, count as nat, 19);
    }
    if count == 0 {
        proof {
            assert forall|j: int| 0 <= j < piece.len() implies !is_digit(#[trigger] piece[j]) by {
                if is_digit(piece[j]) {
                    // the only character that is no digit is the point
                    assert(point is Some && j != point->Some_0);
                    assert(count == len - 1 && len >= 2);
                }
            }
        }
        return None;
    }
    let behind: usize = match point {
        Some(p) => len - 1 - p,
        None => 0,
    };
    proof {
        lemma_ipow_exponent_ordered(10, behind as nat, 19);
        lemma_ipow_positive(10, behind as nat);
        match point {
            Some(p) => {
                assert(piece.contains('.'));
                let found = piece.index_of('.');
                assert(piece[found] == '.');
                assert(found == p);
                let other = if p == 0 {
                    1int
                } else {
                    0int
                };
                assert(is_digit(piece[other]));
            },
            None => {
                assert(!piece.contains('.'));
                assert(is_digit(piece[0]));
            },
        }
    }
    let scale = pow_u128(10, behind);
    Some(Decimal { digits: value, scale })
}

/// The digits of a longer stretch of a text are no fewer.
proof fn lemma_filter_grows(text: Seq<char>, upto: int)
    requires
        0 <= upto <= text.len(),
    ensures
        digits_of(text.take(upto)).len() <= digits_of(text).len(),
    decreases text.len() - upto,
{
    if upto < text.len() {
        lemma_filter_grows(text, upto + 1);
        let longer = text.take(upto + 1);
        assert(longer.drop_last() =~= text.take(upto));
        reveal(Seq::filter);
    } else {
        assert(text.take(upto) =~= text);
    }
}

/// The chance `num / den`, if that is one.
fn chance_from(num: u128, den: u128) -> (r: Result<Ratio, ChanceFault>)
    requires
        den > 0,
    ensures
        num <= den ==> r is Ok && r->Ok_0@ == num as real / den as real,
        num > den ==> r == Err::<Ratio, ChanceFault>(ChanceFault::OutOfRange),
        num as real / den as real <= 1real <==> num <= den,
{
    proof {
        lemma_quotient_within_one(num as int, den as int);
    }
    if num <= den {
        Ok(Ratio::from_parts(num, den))
    } else {
        Err(ChanceFault::OutOfRange)
    }
}

/// Reads a chance, and says why if there is none to read.
pub fn read_chance(text: &str) -> (r: Result<Ratio, ChanceFault>)
    ensures
        match chance_of(text@) {
            Ok(value) => r is Ok && r->Ok_0@ == value,
            Err(fault) => r == Err::<Ratio, ChanceFault>(fault),
        },
{
    let len = text.unicode_len();
    let start = skip_spaces(text, 0);
    let end = skip_numerals(text, start);
    if end == start {
        return Err(ChanceFault::Unreadable);
    }
    let mark = skip_spaces(text, end);
    let ghost piece = text@.subrange(start as int, end as int);
    if mark == len {
        let first = match read_decimal(text, start, end) {
            Some(first) => first,
            None => {
                return Err(ChanceFault::Unreadable);
            },
        };
        return chance_from(first.digits, first.scale);
    }
    let sign = text.get_char(mark);
    if sign == '%' {
        if skip_spaces(text, mark + 1) != len {
            return Err(ChanceFault::Unreadable);
        }
        let first = match read_decimal(text, start, end) {
            Some(first) => first,
            None => {
                return Err(ChanceFault::Unreadable);
            },
        };
        proof {
            lemma_average_count(first.digits as int, first.scale as int, 100);
        }
        chance_from(first.digits, 100 * first.scale)
    } else if sign == '/' {
        let second_start = skip_spaces(text, mark + 1);
        let second_end = skip_numerals(text, second_start);
        if second_end == second_start || skip_spaces(text, second_end) != len {
            return Err(ChanceFault::Unreadable);
        }
        let first = match read_decimal(text, start, end) {
            Some(first) => first,
            None => {
                return Err(ChanceFault::Unreadable);
            },
        };
        let second = match read_decimal(text, second_start, second_end) {
            Some(second) => second,
            None => {
                return Err(ChanceFault::Unreadable);
            },
        };
        proof {
            lemma_quotient_within_one(second.digits as int, second.scale as int);
        }
        if second.digits == 0 {
            return Err(ChanceFault::OutOfRange);
        }
        proof {
            lemma_quotient_of_quotients(
                first.digits as int,
                first.scale as int,
                second.digits as int,
                second.scale as int,
            );
            assert(first.digits * second.scale < 100000000000000000000000000000000000000
                && second.digits * first.scale < 100000000000000000000000000000000000000)
                by (nonlinear_arith)
                requires
                    first.digits < 10000000000000000000,
                    first.scale <= 10000000000000000000,
                    second.digits < 10000000000000000000,
                    second.scale <= 10000000000000000000,
            ;
        }
        chance_from(first.digits * second.scale, second.digits * first.scale)
    } else {
        Err(ChanceFault::Unreadable)
    }
}

/// Reads a chance that was typed in as a decimal (`0.02`), as a percentage
/// (`2%`) or as a fraction of two decimals (`1/50`), with white space
/// around each piece as one likes. The number must lie between nought and
/// one, and each decimal must have no more than `MAX_DIGITS` digits.
pub fn parse_probability(text: &str) -> (r: Result<Ratio, OsrsError>)
    ensures
        match chance_of(text@) {
            Ok(value) => r is Ok && r->Ok_0@ == value,
            Err(fault) => r is Err && r->Err_0 is ArgsError && r->Err_0->ArgsError_0@
                == fault_text(fault, text@),
        },
{
    match read_chance(text) {
        Ok(chance) => Ok(chance),
        Err(ChanceFault::Unreadable) => {
            let mut message = String::from_str("Invalid probability: ");
            message.append(text);
            message.append("; Try a decimal, percentage, or fraction.");
            Err(OsrsError::ArgsError(message))
        },
        Err(ChanceFault::OutOfRange) => {
            let mut message = String::from_str("Probability must be in range [0, 1], but got: ");
            message.append(text);
            Err(OsrsError::ArgsError(message))
        },
    }
}

} // verus!
