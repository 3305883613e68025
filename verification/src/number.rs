//! Reading unsigned numbers from text, as the command line and the
//! interactive commands give them: an optional `+`, then one or more
//! digits and nothing else.

use vstd::prelude::*;

verus! {

/// The value of a digit character: `0` to `9`, then the letters in either
/// case, `a` standing for ten.
pub open spec fn digit_of(byte: u8) -> Option<int> {
    if 0x30 <= byte <= 0x39 {
        Some(byte - 0x30)
    } else if 0x61 <= byte <= 0x7a {
        Some(byte - 0x61 + 10)
    } else if 0x41 <= byte <= 0x5a {
        Some(byte - 0x41 + 10)
    } else {
        None
    }
}

/// The base of the numbers: sixteen or ten.
pub open spec fn radix_of(hex: bool) -> int {
    if hex {
        16
    } else {
        10
    }
}

/// Whether `byte` is a digit of the base.
pub open spec fn is_digit(byte: u8, hex: bool) -> bool {
    digit_of(byte) matches Some(digit) && digit < radix_of(hex)
}

/// Whether every byte is a digit of the base.
pub open spec fn all_digits(digits: Seq<u8>, hex: bool) -> bool {
    forall|i: int| 0 <= i < digits.len() ==> is_digit(#[trigger] digits[i], hex)
}

/// The number that a sequence of digits stands for, most significant digit
/// first.
pub open spec fn number_value(digits: Seq<u8>, hex: bool) -> int
    decreases digits.len(),
{
    if digits.len() == 0 {
        0
    } else {
        let upper = number_value(digits.drop_last(), hex);
        let last = digit_of(digits.last()).unwrap();
        if hex {
            16 * upper + last
        } else {
            10 * upper + last
        }
    }
}

/// The text without its optional leading `+`.
pub open spec fn without_sign(text: Seq<u8>) -> Seq<u8> {
    if text.len() > 0 && text[0] == 0x2b {
        text.subrange(1, text.len() as int)
    } else {
        text
    }
}

/// The number that `text` stands for, if it is an optional `+` followed by
/// at least one digit and only digits, and the number is at most `max`.
pub open spec fn parse_spec(text: Seq<u8>, hex: bool, max: int) -> Option<int> {
    let digits = without_sign(text);
    if digits.len() > 0 && all_digits(digits, hex) && number_value(digits, hex) <= max {
        Some(number_value(digits, hex))
    } else {
        None
    }
}

/// A sequence of digits stands for at least what any of its prefixes
/// stands for, and for a number that is not negative.
pub proof fn lemma_value_grows(digits: Seq<u8>, hex: bool, count: int)
    requires
        all_digits(digits, hex),
        0 <= count <= digits.len(),
    ensures
        0 <= number_value(digits.subrange(0, count), hex) <= number_value(digits, hex),
    decreases digits.len(),
{
    if count == digits.len() {
        assert(digits.subrange(0, count) =~= digits);
        if digits.len() > 0 {
            lemma_value_grows(digits.drop_last(), hex, count - 1);
            assert(digits.drop_last().subrange(0, count - 1) =~= digits.drop_last());
            assert(is_digit(digits[digits.len() - 1], hex));
        }
    } else {
        lemma_value_grows(digits.drop_last(), hex, count);
        assert(digits.drop_last().subrange(0, count) =~= digits.subrange(0, count));
        lemma_value_grows(digits.drop_last(), hex, digits.len() - 1);
        assert(digits.drop_last().subrange(0, digits.len() - 1) =~= digits.drop_last());
        assert(is_digit(digits[digits.len() - 1], hex));
    }
}

/// The value of a digit of the base, or `None` for any other byte.
fn digit_value(byte: u8, hex: bool) -> (digit: Option<u8>)
    ensures
        is_digit(byte, hex) ==> digit == Some(digit_of(byte).unwrap() as u8),
        !is_digit(byte, hex) ==> digit is None,
{
    let value: u8 = if 0x30 <= byte && byte <= 0x39 {
        byte - 0x30
    } else if 0x61 <= byte && byte <= 0x7a {
        byte - 0x61 + 10
    } else if 0x41 <= byte && byte <= 0x5a {
        byte - 0x41 + 10
    } else {
        return None;
    };
    let radix: u8 = if hex {
        16
    } else {
        10
    };
    if value < radix {
        Some(value)
    } else {
        None
    }
}

/// Reads an unsigned number in base sixteen (`hex`) or ten from `text`: an
/// optional `+`, then at least one digit and only digits. Gives `None` for
/// any other text and for a number above `max`.
pub fn parse_unsigned(text: &[u8], hex: bool, max: u64) -> (number: Option<u64>)
    ensures
        number is Some == parse_spec(text@, hex, max as int) is Some,
        number matches Some(value) ==> parse_spec(text@, hex, max as int) == Some(value as int),
{
    let start: usize = if text.len() > 0 && text[0] == 0x2b {
        1
    } else {
        0
    };
    let ghost digits = without_sign(text@);
    if start >= text.len() {
        return None;
    }
    let mut value: u64 = 0;
    let mut index: usize = start;
    assert(digits.subrange(0, 0) =~= Seq::<u8>::empty());
    while index < text.len()
        invariant
            start <= index <= text.len(),
            start <= 1,
            digits == without_sign(text@),
            digits.len() == text@.len() - start,
            forall|k: int| 0 <= k < digits.len() ==> digits[k] == text@[k + start],
            all_digits(digits.subrange(0, index - start), hex),
            value == number_value(digits.subrange(0, index - start), hex),
            value <= max,
        decreases text.len() - index,
    {
        let ghost seen = digits.subrange(0, index - start);
        let ghost more = digits.subrange(0, index - start + 1);
        assert(more.drop_last() =~= seen);
        assert(more.last() == text@[index as int]);
        let digit = match digit_value(text[index], hex) {
            Some(digit) => digit,
            None => {
                assert(!is_digit(digits[index - start], hex));
                return None;
            },
        };
        let wider: u128 = if hex {
            16 * (value as u128) + digit as u128
        } else {
            10 * (value as u128) + digit as u128
        };
        assert(wider == number_value(more, hex));
        assert(all_digits(more, hex)) by {
            assert forall|k: int| 0 <= k < more.len() implies is_digit(#[trigger] more[k], hex) by {
                if k < seen.len() {
                    assert(more[k] == seen[k]);
                }
            }
        }
        if wider > max as u128 {
            proof {
                if all_digits(digits, hex) {
                    lemma_value_grows(digits, hex, index - start + 1);
                }
            }
            return None;
        }
        value = wider as u64;
        index += 1;
    }
    assert(digits.subrange(0, index - start) =~= digits);
    Some(value)
}

} // verus!
