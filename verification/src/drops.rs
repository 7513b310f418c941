//! The drop calculator: how many successes count.

use crate::error::OsrsError;
use vstd::prelude::*;
use vstd::string::{StrSliceExecFns, StringExecFns};

verus! {

/// The numbers of successes that count: exactly so many, at most so many,
/// or at least so many.
#[derive(Copy, Clone, Debug, PartialEq, Eq)]
pub enum TargetRange {
    Eq(usize),
    Lte(usize),
    Gte(usize),
}

impl TargetRange {
    /// The first and the last number of successes that count, among `0,
    /// ..., iterations`. If the first is above the last, none counts.
    pub open spec fn bounds(self, iterations: usize) -> (usize, usize) {
        match self {
            TargetRange::Eq(k) => (k, k),
            TargetRange::Lte(k) => (0, k),
            TargetRange::Gte(k) => (k, iterations),
        }
    }

    /// The numbers of successes that count, in rising order.
    pub open spec fn spec_values(self, iterations: usize) -> Seq<usize> {
        let (first, last) = self.bounds(iterations);
        if first > last {
            Seq::<usize>::empty()
        } else {
            Seq::new((last - first + 1) as nat, |i: int| (first + i) as usize)
        }
    }

    /// The numbers of successes that count, in rising order.
    pub fn as_values(&self, iterations: usize) -> (values: Vec<usize>)
        ensures
            values@ == self.spec_values(iterations),
    {
        let (first, last) = match self {
            TargetRange::Eq(k) => (*k, *k),
            TargetRange::Lte(k) => (0, *k),
            TargetRange::Gte(k) => (*k, iterations),
        };
        let mut values: Vec<usize> = Vec::new();
        if first > last {
            return values;
        }
        let mut next: usize = first;
        while next < last
            invariant
                first <= next <= last,
                values@ =~= Seq::new((next - first) as nat, |i: int| (first + i) as usize),
            decreases last - next,
        {
            values.push(next);
            next = next + 1;
        }
        values.push(last);
        assert(values@ =~= self.spec_values(iterations));
        values
    }
}

/// Whether a character is one of the digits `0` to `9`.
pub open spec fn is_digit(c: char) -> bool {
    '0' <= c <= '9'
}

/// The number that a row of digits stands for.
pub open spec fn digits_value(digits: Seq<char>) -> nat
    decreases digits.len(),
{
    if digits.len() == 0 {
        0
    } else {
        digits_value(digits.drop_last()) * 10 + (digits.last() as nat - '0' as nat) as nat
    }
}

/// Whether a text is a number that fits the machine: one digit or more,
/// and no more than the largest number.
pub open spec fn is_number(digits: Seq<char>) -> bool {
    &&& digits.len() > 0
    &&& forall|i: int| 0 <= i < digits.len() ==> is_digit(#[trigger] digits[i])
    &&& digits_value(digits) <= usize::MAX
}

/// The target that a text stands for: a number alone for exactly so many,
/// a number and `-` for at most so many, a number and `+` for at least so
/// many; nothing else stands for a target.
pub open spec fn target_of(text: Seq<char>) -> Option<TargetRange> {
    if text.len() > 0 && text.last() == '+' {
        if is_number(text.drop_last()) {
            Some(TargetRange::Gte(digits_value(text.drop_last()) as usize))
        } else {
            None
        }
    } else if text.len() > 0 && text.last() == '-' {
        if is_number(text.drop_last()) {
            Some(TargetRange::Lte(digits_value(text.drop_last()) as usize))
        } else {
            None
        }
    } else if is_number(text) {
        Some(TargetRange::Eq(digits_value(text) as usize))
    } else {
        None
    }
}

/// A longer row of digits stands for no smaller a number.
pub proof fn lemma_digits_value_grows(digits: Seq<char>, upto: int)
    requires
        0 <= upto <= digits.len(),
        forall|i: int| 0 <= i < digits.len() ==> is_digit(#[trigger] digits[i]),
    ensures
        digits_value(digits.take(upto)) <= digits_value(digits),
    decreases digits.len() - upto,
{
    if upto < digits.len() {
        lemma_digits_value_grows(digits, upto + 1);
        let longer = digits.take(upto + 1);
        assert(longer.drop_last() =~= digits.take(upto));
        assert(is_digit(digits[upto]));
        assert(longer.last() == digits[upto]);
    } else {
        assert(digits.take(upto) =~= digits);
    }
}

/// Reads the number that the first `len` characters of a text stand for,
/// if they are a number that fits the machine.
fn read_number(text: &str, len: usize) -> (number: Option<usize>)
    requires
        len <= text@.len(),
    ensures
        number is Some <==> is_number(text@.take(len as int)),
        number matches Some(n) ==> n == digits_value(text@.take(len as int)),
{
    if len == 0 {
        return None;
    }
    let ghost digits = text@.take(len as int);
    let mut value: u128 = 0;
    let mut i: usize = 0;
    while i < len
        invariant
            i <= len <= text@.len(),
            digits == text@.take(len as int),
            forall|j: int| 0 <= j < i ==> is_digit(#[trigger] digits[j]),
            value == digits_value(digits.take(i as int)),
            value <= usize::MAX,
        decreases len - i,
    {
        let c = text.get_char(i);
        assert(c == digits[i as int]);
        if c < '0' || c > '9' {
            return None;
        }
        let digit: u128 = (c as u32 - '0' as u32) as u128;
        proof {
            let longer = digits.take(i + 1);
            assert(longer.drop_last() =~= digits.take(i as int));
            assert(longer.last() == c);
        }
        value = value * 10 + digit;
        if value > usize::MAX as u128 {
            proof {
                if is_number(digits) {
                    lemma_digits_value_grows(digits, i + 1);
                }
            }
            return None;
        }
        i = i + 1;
    }
    proof {
        assert(digits.take(len as int) =~= digits);
    }
    Some(value as usize)
}

/// Reads a target: a number alone for exactly so many successes, a number
/// and `-` for at most so many, a number and `+` for at least so many.
pub fn parse_target_range(text: &str) -> (r: Result<TargetRange, OsrsError>)
    ensures
        match target_of(text@) {
            Some(target) => r is Ok && r->Ok_0 == target,
            None => r is Err && r->Err_0 is ArgsError && r->Err_0->ArgsError_0@
                == "Invalid target range: "@ + text@,
        },
{
    let len = text.unicode_len();
    let sign = if len > 0 {
        Some(text.get_char(len - 1))
    } else {
        None
    };
    proof {
        assert(text@.take(len as int) =~= text@);
        if len > 0 {
            assert(text@.take(len - 1) =~= text@.drop_last());
        }
    }
    let target = match sign {
        Some('+') => match read_number(text, len - 1) {
            Some(k) => Some(TargetRange::Gte(k)),
            None => None,
        },
        Some('-') => match read_number(text, len - 1) {
            Some(k) => Some(TargetRange::Lte(k)),
            None => None,
        },
        _ => match read_number(text, len) {
            Some(k) => Some(TargetRange::Eq(k)),
            None => None,
        },
    };
    match target {
        Some(target) => Ok(target),
        None => {
            let mut message = String::from_str("Invalid target range: ");
            message.append(text);
            Err(OsrsError::ArgsError(message))
        },
    }
}

} // verus!
