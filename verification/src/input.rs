//! Reading what a user typed: a direction, a quantity, a price.
//!
//! A line that cannot be read is no failure of the program: the caller shows
//! the corrective message and asks again.
use crate::direction::{buy_sell_string_to_enum, parsed_direction, OfferDirection};
use vstd::prelude::*;
use vstd::string::is_ascii;

verus! {

/// What was wrong with a line of input.
#[derive(Clone, Copy, Debug, PartialEq, Eq, Structural)]
pub enum InputError {
    /// The line names no direction.
    Direction,
    /// The line is no quantity.
    Quantity,
    /// The line is no price.
    Price,
}

/// A decimal digit.
pub open spec fn is_digit(c: char) -> bool {
    '0' <= c <= '9'
}

/// Every character is a decimal digit.
pub open spec fn all_digits(text: Seq<char>) -> bool {
    forall|i: int| 0 <= i < text.len() ==> is_digit(#[trigger] text[i])
}

/// The number that a run of decimal digits stands for.
pub open spec fn decimal_value(digits: Seq<char>) -> nat
    decreases digits.len(),
{
    if digits.len() == 0 {
        0
    } else {
        (decimal_value(digits.drop_last()) * 10 + (digits.last() as u8 - '0' as u8)) as nat
    }
}

/// The text behind a sign, or the whole text where it has none. A minus
/// counts as a sign only where `signed` says so; a plus always does.
pub open spec fn unsigned_part(text: Seq<char>, signed: bool) -> Seq<char> {
    if text.len() > 0 && (text[0] == '+' || (signed && text[0] == '-')) {
        text.skip(1)
    } else {
        text
    }
}

/// The quantity that a text stands for: one or more decimal digits, with an
/// optional plus in front, of a value up to `u64::MAX`.
pub open spec fn quantity_of(text: Seq<char>) -> Option<u64> {
    let digits = unsigned_part(text, false);
    if digits.len() > 0 && all_digits(digits) && decimal_value(digits) <= u64::MAX {
        Some(decimal_value(digits) as u64)
    } else {
        None
    }
}

/// The price that a text stands for: one or more decimal digits, with an
/// optional plus or minus in front, of a value from `i64::MIN` to
/// `i64::MAX`.
pub open spec fn price_of(text: Seq<char>) -> Option<i64> {
    let digits = unsigned_part(text, true);
    let value = if text.len() > 0 && text[0] == '-' {
        -(decimal_value(digits) as int)
    } else {
        decimal_value(digits) as int
    };
    if digits.len() > 0 && all_digits(digits) && i64::MIN <= value <= i64::MAX {
        Some(value as i64)
    } else {
        None
    }
}

/// A line without the line feed at its end, if it has one.
pub open spec fn without_line_end(line: Seq<char>) -> Seq<char> {
    if line.len() > 0 && line.last() == '\n' {
        line.drop_last()
    } else {
        line
    }
}

/// The first digits of a run of digits stand for no more than the whole
/// run.
pub proof fn lemma_decimal_value_grows(digits: Seq<char>, count: int)
    requires
        all_digits(digits),
        0 <= count <= digits.len(),
    ensures
        decimal_value(digits.take(count)) <= decimal_value(digits),
    decreases digits.len(),
{
    if count == digits.len() {
        assert(digits.take(count) =~= digits);
    } else {
        let shorter = digits.drop_last();
        assert(shorter.take(count) =~= digits.take(count));
        lemma_decimal_value_grows(shorter, count);
    }
}

/// Reads the digits of `text` from `start` on as a number up to `limit`.
fn read_digits(text: &str, start: usize, limit: u64) -> (number: Option<u64>)
    requires
        is_ascii(text),
        start <= text@.len(),
    ensures
        number == {
            let digits = text@.skip(start as int);
            if digits.len() > 0 && all_digits(digits) && decimal_value(digits) <= limit {
                Some(decimal_value(digits) as u64)
            } else {
                None
            }
        },
{
    let length = text.unicode_len();
    let ghost digits = text@.skip(start as int);
    if start == length {
        return None;
    }
    let mut value: u64 = 0;
    let mut i: usize = start;
    while i < length
        invariant
            start <= i <= length,
            length == text@.len(),
            is_ascii(text),
            digits == text@.skip(start as int),
            all_digits(digits.take(i - start)),
            value == decimal_value(digits.take(i - start)),
            value <= limit,
        decreases length - i,
    {
        let byte = text.get_ascii(i);
        let ghost c = text@[i as int];
        let ghost longer = digits.take(i - start + 1);
        assert(longer.drop_last() =~= digits.take(i - start));
        assert(longer.last() == c);
        if byte < 48 || byte > 57 {
            return None;
        }
        let digit = (byte - 48) as u64;
        if value > limit / 10 || digit > limit - value * 10 {
            proof {
                if all_digits(digits) {
                    lemma_decimal_value_grows(digits, i - start + 1);
                }
            }
            return None;
        }
        value = value * 10 + digit;
        i += 1;
    }
    assert(digits.take(i - start) =~= digits);
    Some(value)
}

/// A text with a character that is not ASCII is no number.
proof fn lemma_beyond_ascii_is_no_number(text: Seq<char>, signed: bool)
    requires
        !vstd::utf8::is_ascii_chars(text),
    ensures
        !all_digits(unsigned_part(text, signed)),
{
    let i = choose|i: int| 0 <= i < text.len() && !('\0' <= #[trigger] text[i] <= '\u{7f}');
    let digits = unsigned_part(text, signed);
    if digits.len() == text.len() {
        assert(!is_digit(digits[i]));
    } else {
        assert(!is_digit(digits[i - 1]));
    }
}

/// The first character of an ASCII text is a sign exactly where its byte is
/// a sign's.
proof fn lemma_sign_bytes(text: Seq<char>)
    requires
        vstd::utf8::is_ascii_chars(text),
    ensures
        text.len() > 0 ==> (text[0] as u8 == 43 <==> text[0] == '+'),
        text.len() > 0 ==> (text[0] as u8 == 45 <==> text[0] == '-'),
{
    if text.len() > 0 {
        assert('\0' <= text[0] <= '\u{7f}');
    }
}

/// Reads a quantity.
pub fn read_quantity(line: &str) -> (quantity: Result<u64, InputError>)
    ensures
        quantity == match quantity_of(line@) {
            Some(number) => Ok::<u64, InputError>(number),
            None => Err::<u64, InputError>(InputError::Quantity),
        },
{
    if !line.is_ascii() {
        proof {
            lemma_beyond_ascii_is_no_number(line@, false);
        }
        return Err(InputError::Quantity);
    }
    let start: usize = if line.unicode_len() > 0 && line.get_ascii(0) == 43 {
        1
    } else {
        0
    };
    proof {
        lemma_sign_bytes(line@);
        assert(line@.skip(0) =~= line@);
    }
    match read_digits(line, start, u64::MAX) {
        Some(number) => Ok(number),
        None => Err(InputError::Quantity),
    }
}

/// Reads a price.
pub fn read_price(line: &str) -> (price: Result<i64, InputError>)
    ensures
        price == match price_of(line@) {
            Some(number) => Ok::<i64, InputError>(number),
            None => Err::<i64, InputError>(InputError::Price),
        },
{
    if !line.is_ascii() {
        proof {
            lemma_beyond_ascii_is_no_number(line@, true);
        }
        return Err(InputError::Price);
    }
    let signed = line.unicode_len() > 0 && (line.get_ascii(0) == 43 || line.get_ascii(0) == 45);
    let negative = signed && line.get_ascii(0) == 45;
    let start: usize = if signed {
        1
    } else {
        0
    };
    proof {
        lemma_sign_bytes(line@);
        assert(line@.skip(0) =~= line@);
    }
    if negative {
        match read_digits(line, start, 9223372036854775808) {
            Some(magnitude) => if magnitude == 9223372036854775808 {
                Ok(i64::MIN)
            } else {
                Ok(-(magnitude as i64))
            },
            None => Err(InputError::Price),
        }
    } else {
        match read_digits(line, start, 9223372036854775807) {
            Some(magnitude) => Ok(magnitude as i64),
            None => Err(InputError::Price),
        }
    }
}

/// Reads a direction, whatever the case of its letters.
pub fn read_direction(line: &str) -> (direction: Result<OfferDirection, InputError>)
    ensures
        direction == match parsed_direction(line@) {
            Some(d) => Ok::<OfferDirection, InputError>(d),
            None => Err::<OfferDirection, InputError>(InputError::Direction),
        },
{
    match buy_sell_string_to_enum(String::from_str(line)) {
        Some(direction) => Ok(direction),
        None => Err(InputError::Direction),
    }
}

/// Takes the line feed off the end of a line that was read, if it has one.
pub fn strip_line_end(line: &str) -> (stripped: &str)
    ensures
        stripped@ == without_line_end(line@),
{
    let length = line.unicode_len();
    if length > 0 && line.get_char(length - 1) == '\n' {
        line.substring_char(0, length - 1)
    } else {
        line
    }
}

/// Says what to type instead of what was typed.
pub fn corrective_message(error: InputError) -> (message: &'static str)
    ensures
        message@ == match error {
            InputError::Direction =>
                "Unrecognized input. Please specify either 'Buy', 'Buying', 'Sell', or 'Selling'"@,
            InputError::Quantity => "Unrecognized input. Please input a positive integer"@,
            InputError::Price => "Unrecognized input. Please input an integer"@,
        },
{
    match error {
        InputError::Direction =>
            "Unrecognized input. Please specify either 'Buy', 'Buying', 'Sell', or 'Selling'",
        InputError::Quantity => "Unrecognized input. Please input a positive integer",
        InputError::Price => "Unrecognized input. Please input an integer",
    }
}

} // verus!
