//! The options of a scan, read from text.

use crate::fakes::is_digit;
use crate::session::DEFAULT_ROW_COUNT;
use vstd::prelude::*;

verus! {

/// The value of a decimal digit.
pub open spec fn digit_value(c: char) -> int {
    c as int - '0' as int
}

/// Every character is a decimal digit.
pub open spec fn all_digits(text: Seq<char>) -> bool {
    forall|i: int| 0 <= i < text.len() ==> is_digit(#[trigger] text[i])
}

/// The number that a run of decimal digits writes.
pub open spec fn decimal_value(text: Seq<char>) -> int
    decreases text.len(),
{
    if text.len() == 0 {
        0
    } else {
        decimal_value(text.drop_last()) * 10 + digit_value(text.last())
    }
}

/// The unsigned integer that `text` writes: one decimal digit or more, nothing else, and a
/// value that 64 bits hold.
pub open spec fn parsed(text: Seq<char>) -> Option<u64> {
    if text.len() > 0 && all_digits(text) && decimal_value(text) <= u64::MAX {
        Some(decimal_value(text) as u64)
    } else {
        None
    }
}

/// The value of an option that may be missing or malformed: what it writes, else `default`.
pub open spec fn option_or(value: Option<Seq<char>>, default: u64) -> u64 {
    match value {
        Some(text) => match parsed(text) {
            Some(number) => number,
            None => default,
        },
        None => default,
    }
}

proof fn lemma_decimal_value_grows(text: Seq<char>, n: int)
    requires
        all_digits(text),
        0 <= n <= text.len(),
    ensures
        0 <= decimal_value(text.take(n)) <= decimal_value(text),
    decreases text.len() - n,
{
    if n == text.len() {
        assert(text.take(n) =~= text);
        lemma_decimal_value_bounds(text);
    } else {
        lemma_decimal_value_grows(text, n + 1);
        let longer = text.take(n + 1);
        assert(longer.drop_last() =~= text.take(n));
        assert(longer.last() == text[n]);
        assert(is_digit(text[n]));
        assert(all_digits(text.take(n))) by {
            assert forall|i: int| 0 <= i < text.take(n).len() implies is_digit(
                #[trigger] text.take(n)[i],
            ) by {
                assert(text.take(n)[i] == text[i]);
            }
        }
        lemma_decimal_value_bounds(text.take(n));
    }
}

proof fn lemma_decimal_value_bounds(text: Seq<char>)
    requires
        all_digits(text),
    ensures
        0 <= decimal_value(text),
    decreases text.len(),
{
    if text.len() > 0 {
        assert(all_digits(text.drop_last())) by {
            assert forall|i: int| 0 <= i < text.drop_last().len() implies is_digit(
                #[trigger] text.drop_last()[i],
            ) by {
                assert(text.drop_last()[i] == text[i]);
            }
        }
        lemma_decimal_value_bounds(text.drop_last());
        assert(is_digit(text.last()));
    }
}

/// Reads an unsigned integer: decimal digits and nothing else.
pub fn parse_unsigned(text: &str) -> (number: Option<u64>)
    ensures
        number == parsed(text@),
{
    let len = text.unicode_len();
    if len == 0 {
        return None;
    }
    let mut value: u64 = 0;
    let mut i: usize = 0;
    while i < len
        invariant
            len == text@.len(),
            i <= len,
            all_digits(text@.take(i as int)),
            value == decimal_value(text@.take(i as int)),
        decreases len - i,
    {
        let c = text.get_char(i);
        if !('0' <= c && c <= '9') {
            assert(!is_digit(text@[i as int]));
            return None;
        }
        let d: u64 = (c as u32 - '0' as u32) as u64;
        proof {
            let longer = text@.take(i + 1);
            assert(longer.drop_last() =~= text@.take(i as int));
            assert(longer.last() == c);
            assert(all_digits(longer)) by {
                assert forall|j: int| 0 <= j < longer.len() implies is_digit(
                    #[trigger] longer[j],
                ) by {
                    if j < i {
                        assert(text@.take(i as int)[j] == longer[j]);
                    }
                }
            }
        }
        if value > (u64::MAX - d) / 10 {
            proof {
                if all_digits(text@) {
                    lemma_decimal_value_grows(text@, i + 1);
                }
            }
            return None;
        }
        value = value * 10 + d;
        i += 1;
    }
    assert(text@.take(len as int) =~= text@);
    Some(value)
}

/// The number of rows that a scan is asked for: what the option writes, and 1024 where it is
/// missing or does not write an unsigned integer.
pub fn row_count_option(value: Option<&str>) -> (rows: u64)
    ensures
        rows == option_or(
            match value {
                Some(text) => Some(text@),
                None => None,
            },
            DEFAULT_ROW_COUNT,
        ),
{
    match value {
        Some(text) => match parse_unsigned(text) {
            Some(number) => number,
            None => DEFAULT_ROW_COUNT,
        },
        None => DEFAULT_ROW_COUNT,
    }
}

/// The seed that a scan is asked for: what the option writes, and 0, which asks for a
/// stream keyed from entropy, where it is missing or does not write an unsigned integer.
pub fn seed_option(value: Option<&str>) -> (seed: u64)
    ensures
        seed == option_or(
            match value {
                Some(text) => Some(text@),
                None => None,
            },
            0,
        ),
{
    match value {
        Some(text) => match parse_unsigned(text) {
            Some(number) => number,
            None => 0,
        },
        None => 0,
    }
}

} // verus!
