//! The seed of a task's random stream.
//!
//! A task that draws once for all its lights is seeded with a fixed number. A
//! task that draws for each light is seeded with the number that the name of
//! its first light spells in decimal, so that a light meets the same stream
//! in every session; a name that spells no number gives a fallback.

use crate::config::SyncMode;
use vstd::prelude::*;
use vstd::string::StrSliceExecFns;

verus! {

/// The seed of a task whose lights share one draw.
pub const SHARED_SEED: u64 = 43;

/// The seed of a task whose first light has a name that spells no number, or
/// which has no light at all.
pub const FALLBACK_SEED: u64 = 42;

/// Whether a character is one of the ten decimal digits.
pub open spec fn is_digit(c: char) -> bool {
    '0' <= c <= '9'
}

/// Whether every character of a text is a decimal digit.
pub open spec fn all_digits(text: Seq<char>) -> bool {
    forall|i: int| 0 <= i < text.len() ==> is_digit(#[trigger] text[i])
}

/// The number that a text of digits spells in decimal.
pub open spec fn decimal(text: Seq<char>) -> nat
    decreases text.len(),
{
    if text.len() == 0 {
        0
    } else {
        (decimal(text.drop_last()) * 10 + (text.last() as int - '0' as int)) as nat
    }
}

/// The digits of a number's text: the text without its plus sign, if it
/// starts with one.
pub open spec fn unsigned_part(text: Seq<char>) -> Seq<char> {
    if text.len() > 0 && text[0] == '+' {
        text.drop_first()
    } else {
        text
    }
}

/// The number that a text spells: an optional plus sign, then one or more
/// decimal digits and nothing else, of a value that fits 64 bits. Any other
/// text spells no number.
pub open spec fn parsed_u64(text: Seq<char>) -> Option<u64> {
    let digits = unsigned_part(text);
    if digits.len() > 0 && all_digits(digits) && decimal(digits) <= u64::MAX {
        Some(decimal(digits) as u64)
    } else {
        None
    }
}

/// The seed that the name of a light gives.
pub open spec fn seed_of_name(name: Seq<char>) -> u64 {
    match parsed_u64(name) {
        Some(number) => number,
        None => FALLBACK_SEED,
    }
}

/// The seed of the task that a mode starts for the lights named.
pub open spec fn seed_for(sync_mode: SyncMode, light_ids: Seq<String>) -> u64 {
    if sync_mode == SyncMode::TimeAndColor {
        SHARED_SEED
    } else if light_ids.len() == 0 {
        FALLBACK_SEED
    } else {
        seed_of_name(light_ids[0]@)
    }
}

/// A longer text of digits spells no smaller a number than its beginning.
proof fn lemma_decimal_grows(text: Seq<char>, len: int)
    requires
        0 <= len <= text.len(),
        all_digits(text),
    ensures
        decimal(text.take(len)) <= decimal(text),
    decreases text.len() - len,
{
    if len < text.len() {
        let rest = text.drop_last();
        assert(is_digit(text[text.len() - 1]));
        assert(decimal(rest) <= decimal(text));
        if len == text.len() - 1 {
            assert(text.take(len) == rest);
        } else {
            assert forall|i: int| 0 <= i < rest.len() implies is_digit(#[trigger] rest[i]) by {
                assert(rest[i] == text[i]);
            }
            lemma_decimal_grows(rest, len);
            assert(rest.take(len) == text.take(len));
        }
    } else {
        assert(text.take(len) == text);
    }
}

/// Reads the number that a text spells.
pub fn parse_u64(text: &str) -> (number: Option<u64>)
    ensures
        number == parsed_u64(text@),
{
    let len: usize = text.unicode_len();
    if len == 0 {
        return None;
    }
    let first: usize = if text.get_char(0) == '+' {
        1
    } else {
        0
    };
    let ghost digits = unsigned_part(text@);
    if first == len {
        return None;
    }
    let mut value: u64 = 0;
    let mut i: usize = first;
    while i < len
        invariant
            first <= i <= len,
            len == text@.len(),
            first <= 1,
            digits == text@.subrange(first as int, len as int),
            digits == unsigned_part(text@),
            all_digits(digits.take(i - first)),
            value == decimal(digits.take(i - first)),
        decreases len - i,
    {
        let c: char = text.get_char(i);
        let ghost before = digits.take(i - first);
        let ghost upto = digits.take(i - first + 1);
        proof {
            assert(upto.drop_last() == before);
            assert(upto.last() == c);
        }
        let code: u32 = c as u32;
        if code < 48 || code > 57 {
            proof {
                assert(!is_digit(digits[i - first]));
            }
            return None;
        }
        let digit: u64 = (code - 48) as u64;
        proof {
            assert(is_digit(c));
            assert forall|k: int| 0 <= k < upto.len() implies is_digit(#[trigger] upto[k]) by {
                if k < before.len() {
                    assert(upto[k] == before[k]);
                }
            }
            assert(decimal(upto) == value * 10 + digit);
        }
        let next: Option<u64> = match value.checked_mul(10) {
            Some(tens) => tens.checked_add(digit),
            None => None,
        };
        match next {
            Some(sum) => {
                value = sum;
            },
            None => {
                proof {
                    assert(decimal(upto) > u64::MAX);
                    if all_digits(digits) {
                        lemma_decimal_grows(digits, i - first + 1);
                    }
                }
                return None;
            },
        }
        i += 1;
    }
    proof {
        assert(digits.take(i - first) == digits);
    }
    Some(value)
}

/// Picks the seed of the task that a mode starts for the lights named.
pub fn task_seed(sync_mode: SyncMode, light_ids: &Vec<String>) -> (seed: u64)
    ensures
        seed == seed_for(sync_mode, light_ids@),
{
    match sync_mode {
        SyncMode::TimeAndColor => SHARED_SEED,
        _ => {
            if light_ids.len() == 0 {
                FALLBACK_SEED
            } else {
                match parse_u64(light_ids[0].as_str()) {
                    Some(number) => number,
                    None => FALLBACK_SEED,
                }
            }
        },
    }
}

} // verus!
