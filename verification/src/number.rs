//! Reading numbers that the user typed: an optional `+`, then decimal digits.

use vstd::prelude::*;
use vstd::string::*;
use vstd::utf8::*;

verus! {

/// Whether `c` is one of the ten decimal digits.
pub open spec fn is_digit(c: char) -> bool {
    '0' <= c <= '9'
}

/// The value of a digit.
pub open spec fn digit(c: char) -> nat {
    (c as nat - '0' as nat) as nat
}

/// Whether `text` holds digits only.
pub open spec fn all_digits(text: Seq<char>) -> bool {
    forall|i: int| 0 <= i < text.len() ==> is_digit(#[trigger] text[i])
}

/// The number that a row of digits stands for, the first digit counting most.
pub open spec fn digits_value(digits: Seq<char>) -> nat
    decreases digits.len(),
{
    if digits.len() == 0 {
        0
    } else {
        digits_value(digits.drop_last()) * 10 + digit(digits.last())
    }
}

/// What follows the sign, where `text` starts with one; else all of `text`.
pub open spec fn unsigned_part(text: Seq<char>) -> Seq<char> {
    if text.len() > 0 && text[0] == '+' {
        text.drop_first()
    } else {
        text
    }
}

/// The number that `text` stands for: an optional `+`, then one digit or
/// more, and nothing else. There is none where `text` is empty, is a lone
/// sign, or holds anything that is no digit, a blank or a `-` included.
pub open spec fn unsigned_decimal(text: Seq<char>) -> Option<nat> {
    let digits = unsigned_part(text);
    if digits.len() > 0 && all_digits(digits) {
        Some(digits_value(digits))
    } else {
        None
    }
}

/// The number that `text` stands for, where it is at most `max`.
pub open spec fn bounded_decimal(text: Seq<char>, max: nat) -> Option<nat> {
    match unsigned_decimal(text) {
        Some(value) => if value <= max {
            Some(value)
        } else {
            None
        },
        None => None,
    }
}

/// A row of digits stands for no less than any of its beginnings does.
pub proof fn lemma_digits_value_grows(digits: Seq<char>, upto: int)
    requires
        0 <= upto <= digits.len(),
    ensures
        digits_value(digits.subrange(0, upto)) <= digits_value(digits),
    decreases digits.len(),
{
    if upto == digits.len() {
        assert(digits.subrange(0, upto) =~= digits);
    } else {
        lemma_digits_value_grows(digits.drop_last(), upto);
        assert(digits.drop_last().subrange(0, upto) =~= digits.subrange(0, upto));
    }
}

/// Reads a number of at most `max`.
pub fn parse_unsigned(text: &str, max: u64) -> (parsed: Option<u64>)
    ensures
        parsed == match bounded_decimal(text@, max as nat) {
            Some(value) => Some(value as u64),
            None => None,
        },
{
    if !text.is_ascii() {
        proof {
            let at = choose|at: int|
                0 <= at < text@.len() && !('\0' <= #[trigger] text@[at] <= '\u{7f}');
            let digits = unsigned_part(text@);
            if text@[0] == '+' {
                assert(digits[at - 1] == text@[at]);
            } else {
                assert(digits[at] == text@[at]);
            }
        }
        return None;
    }
    let bytes = text.as_bytes();
    proof {
        is_ascii_chars_encode_utf8(text@);
    }
    let len = bytes.len();
    let start: usize = if len > 0 && bytes[0] == 43 {
        1
    } else {
        0
    };
    let ghost digits = unsigned_part(text@);
    if start == len {
        return None;
    }
    let mut value: u64 = 0;
    let mut at: usize = start;
    while at < len
        invariant
            start <= at <= len,
            len == text@.len(),
            is_ascii_chars(text@),
            bytes@ == text.spec_bytes(),
            bytes@.len() == len,
            forall|i: int| 0 <= i < len ==> text@[i] as u8 == #[trigger] bytes@[i],
            digits == text@.subrange(start as int, len as int),
            digits == unsigned_part(text@),
            digits.len() > 0,
            all_digits(text@.subrange(start as int, at as int)),
            value == digits_value(text@.subrange(start as int, at as int)),
            value <= max,
        decreases len - at,
    {
        let byte = bytes[at];
        let ghost seen = text@.subrange(start as int, at as int + 1);
        assert(seen.drop_last() =~= text@.subrange(start as int, at as int));
        assert(digits[at - start] == text@[at as int]);
        if byte < 48 || byte > 57 {
            return None;
        }
        let found: u64 = (byte - 48) as u64;
        if found > max || value > (max - found) / 10 {
            proof {
                assert(digits.subrange(0, at as int + 1 - start) =~= seen);
                lemma_digits_value_grows(digits, at as int + 1 - start);
            }
            return None;
        }
        value = value * 10 + found;
        at = at + 1;
    }
    Some(value)
}

/// Reads a number that fits in eight bits.
pub fn parse_u8(text: &str) -> (parsed: Option<u8>)
    ensures
        parsed == match bounded_decimal(text@, 255) {
            Some(value) => Some(value as u8),
            None => None,
        },
{
    match parse_unsigned(text, 255) {
        Some(value) => Some(value as u8),
        None => None,
    }
}

/// Reads a number that fits in thirty-two bits.
pub fn parse_u32(text: &str) -> (parsed: Option<u32>)
    ensures
        parsed == match bounded_decimal(text@, u32::MAX as nat) {
            Some(value) => Some(value as u32),
            None => None,
        },
{
    match parse_unsigned(text, 4294967295) {
        Some(value) => Some(value as u32),
        None => None,
    }
}

/// The digit that stands for `value`, which is below ten.
pub open spec fn digit_char(value: nat) -> char {
    if value == 0 {
        '0'
    } else if value == 1 {
        '1'
    } else if value == 2 {
        '2'
    } else if value == 3 {
        '3'
    } else if value == 4 {
        '4'
    } else if value == 5 {
        '5'
    } else if value == 6 {
        '6'
    } else if value == 7 {
        '7'
    } else if value == 8 {
        '8'
    } else {
        '9'
    }
}

/// The decimal digits of `value`, the first counting most, with no zero in
/// front but for zero itself.
pub open spec fn decimal_text(value: nat) -> Seq<char>
    decreases value,
{
    if value < 10 {
        seq![digit_char(value)]
    } else {
        decimal_text(value / 10).push(digit_char(value % 10))
    }
}

/// What is written for a number is read back as that number.
pub proof fn lemma_decimal_text_is_read_back(value: nat)
    ensures
        decimal_text(value).len() > 0,
        all_digits(decimal_text(value)),
        digits_value(decimal_text(value)) == value,
        decimal_text(value)[0] != '+',
        unsigned_decimal(decimal_text(value)) == Some(value),
    decreases value,
{
    let text = decimal_text(value);
    if value < 10 {
        assert(text.drop_last() =~= Seq::<char>::empty());
        assert(digits_value(text.drop_last()) == 0);
        assert(digit(digit_char(value)) == value);
    } else {
        lemma_decimal_text_is_read_back(value / 10);
        assert(text.drop_last() =~= decimal_text(value / 10));
        assert(digit(digit_char(value % 10)) == value % 10);
        assert(text[0] == decimal_text(value / 10)[0]);
    }
}

fn digit_text(value: u64) -> (text: &'static str)
    requires
        value < 10,
    ensures
        text@ == seq![digit_char(value as nat)],
{
    proof {
        reveal_strlit("0");
        reveal_strlit("1");
        reveal_strlit("2");
        reveal_strlit("3");
        reveal_strlit("4");
        reveal_strlit("5");
        reveal_strlit("6");
        reveal_strlit("7");
        reveal_strlit("8");
        reveal_strlit("9");
    }
    let text = if value == 0 {
        "0"
    } else if value == 1 {
        "1"
    } else if value == 2 {
        "2"
    } else if value == 3 {
        "3"
    } else if value == 4 {
        "4"
    } else if value == 5 {
        "5"
    } else if value == 6 {
        "6"
    } else if value == 7 {
        "7"
    } else if value == 8 {
        "8"
    } else {
        "9"
    };
    assert(text@ =~= seq![digit_char(value as nat)]);
    text
}

/// Writes a number in decimal digits.
pub fn decimal(value: u64) -> (text: String)
    ensures
        text@ == decimal_text(value as nat),
    decreases value,
{
    if value < 10 {
        digit_text(value).to_owned()
    } else {
        let mut text = decimal(value / 10);
        text.append(digit_text(value % 10));
        text
    }
}

} // verus!
