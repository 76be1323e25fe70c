//! Writing numbers in decimal and hexadecimal, and reading them back.
use vstd::prelude::*;

use crate::text::to_chars;

verus! {

/// The capital digit that stands for `digit`.
pub open spec fn digit_char(digit: nat) -> char {
    if digit < 10 {
        ('0' as u8 + digit) as u8 as char
    } else {
        ('A' as u8 + (digit - 10)) as u8 as char
    }
}

/// `number` in positional notation, without leading zeros.
pub open spec fn digits(number: nat, radix: nat) -> Seq<char>
    recommends
        2 <= radix <= 16,
    decreases number,
{
    if radix < 2 || number < radix {
        seq![digit_char(number)]
    } else {
        proof {
            vstd::arithmetic::div_mod::lemma_div_decreases(number as int, radix as int);
        }
        digits(number / radix, radix).push(digit_char(number % radix))
    }
}

/// `number` in decimal, with a minus sign where it is negative.
pub open spec fn decimal(number: int) -> Seq<char> {
    if number < 0 {
        seq!['-'] + digits((-number) as nat, 10)
    } else {
        digits(number as nat, 10)
    }
}

/// `number` in hexadecimal, with at least two digits.
pub open spec fn padded_hex(number: nat) -> Seq<char> {
    if number < 16 {
        seq!['0'] + digits(number, 16)
    } else {
        digits(number, 16)
    }
}

/// Writes `number` in positional notation.
pub fn digits_text(number: u64, radix: u64) -> (text: String)
    requires
        2 <= radix <= 16,
    ensures
        text@ == digits(number as nat, radix as nat),
    decreases number,
{
    if number < radix {
        let mut text = String::new();
        text.push(digit(number));
        assert(text@ =~= seq![digit_char(number as nat)]);
        text
    } else {
        proof {
            vstd::arithmetic::div_mod::lemma_div_decreases(number as int, radix as int);
            vstd::arithmetic::div_mod::lemma_fundamental_div_mod(number as int, radix as int);
        }
        let mut text = digits_text(number / radix, radix);
        text.push(digit(number % radix));
        text
    }
}

/// The capital digit that stands for `value`.
fn digit(value: u64) -> (ch: char)
    requires
        value < 16,
    ensures
        ch == digit_char(value as nat),
{
    if value < 10 {
        ('0' as u8 + value as u8) as char
    } else {
        ('A' as u8 + (value as u8 - 10)) as char
    }
}

/// Writes `number` in decimal.
pub fn decimal_text(number: i64) -> (text: String)
    ensures
        text@ == decimal(number as int),
{
    if number < 0 {
        let magnitude: u64 = (0 - number as i128) as u64;
        let mut text = String::new();
        text.push('-');
        text.append(digits_text(magnitude, 10).as_str());
        assert(text@ =~= seq!['-'] + digits((-number) as nat, 10));
        text
    } else {
        digits_text(number as u64, 10)
    }
}

/// Writes `number` in hexadecimal, with at least two digits.
pub fn padded_hex_text(number: u64) -> (text: String)
    ensures
        text@ == padded_hex(number as nat),
{
    if number < 16 {
        let mut text = String::new();
        text.push('0');
        text.append(digits_text(number, 16).as_str());
        assert(text@ =~= seq!['0'] + digits(number as nat, 16));
        text
    } else {
        digits_text(number, 16)
    }
}

/// Why a text is not a number.
#[derive(Debug, Clone, Copy, PartialEq, Eq, Structural)]
pub enum NumberError {
    /// The text is empty.
    Empty,
    /// A character is not a digit of the radix.
    InvalidDigit,
    /// The number is larger than the limit.
    TooLarge,
}

impl NumberError {
    /// The error in words.
    pub open spec fn message(self) -> Seq<char> {
        match self {
            NumberError::Empty => "cannot parse integer from empty string"@,
            NumberError::InvalidDigit => "invalid digit found in string"@,
            NumberError::TooLarge => "number too large to fit in target type"@,
        }
    }

    /// The error in words.
    pub fn text(&self) -> (text: &'static str)
        ensures
            text@ == self.message(),
    {
        match self {
            NumberError::Empty => "cannot parse integer from empty string",
            NumberError::InvalidDigit => "invalid digit found in string",
            NumberError::TooLarge => "number too large to fit in target type",
        }
    }
}

/// The value of a digit, where `ch` is a digit of the radix.
pub open spec fn digit_value(ch: char, radix: nat) -> Option<nat> {
    let value = if '0' <= ch && ch <= '9' {
        ch as int - '0' as int
    } else if 'a' <= ch && ch <= 'z' {
        ch as int - 'a' as int + 10
    } else if 'A' <= ch && ch <= 'Z' {
        ch as int - 'A' as int + 10
    } else {
        radix as int
    };
    if value < radix {
        Some(value as nat)
    } else {
        None
    }
}

/// The number that `text` is read as: an optional `+`, then digits of the radix.
///
/// The digits are read from the left, and the first that is no digit or takes the number over
/// `limit` decides the error.
pub open spec fn number(text: Seq<char>, radix: nat, limit: nat) -> Result<nat, NumberError> {
    if text.len() == 0 {
        Err(NumberError::Empty)
    } else if text[0] == '+' {
        if text.len() == 1 {
            Err(NumberError::InvalidDigit)
        } else {
            number_from(text, 1, 0, radix, limit)
        }
    } else {
        number_from(text, 0, 0, radix, limit)
    }
}

/// The number that the digits of `text` from `start` continue `leading` to.
pub open spec fn number_from(
    text: Seq<char>,
    start: int,
    leading: nat,
    radix: nat,
    limit: nat,
) -> Result<nat, NumberError>
    decreases text.len() - start,
{
    if start >= text.len() {
        Ok(leading)
    } else {
        match digit_value(text[start], radix) {
            None => Err(NumberError::InvalidDigit),
            Some(value) => {
                let extended = leading * radix + value;
                if extended > limit {
                    Err(NumberError::TooLarge)
                } else {
                    number_from(text, start + 1, extended, radix, limit)
                }
            },
        }
    }
}

fn digit_value_of(ch: char, radix: u8) -> (value: Option<u8>)
    requires
        2 <= radix <= 16,
    ensures
        match value {
            Some(value) => digit_value(ch, radix as nat) == Some(value as nat) && value < radix,
            None => digit_value(ch, radix as nat) is None,
        },
{
    let value: u8 = if '0' <= ch && ch <= '9' {
        ch as u8 - '0' as u8
    } else if 'a' <= ch && ch <= 'z' {
        ch as u8 - 'a' as u8 + 10
    } else if 'A' <= ch && ch <= 'Z' {
        ch as u8 - 'A' as u8 + 10
    } else {
        radix
    };
    if value < radix {
        Some(value)
    } else {
        None
    }
}

/// Reads a number of at most `limit`.
pub fn parse_number(text: &str, radix: u8, limit: u64) -> (result: Result<u64, NumberError>)
    requires
        2 <= radix <= 16,
    ensures
        match result {
            Ok(value) => number(text@, radix as nat, limit as nat) == Ok::<nat, NumberError>(
                value as nat,
            ) && value <= limit,
            Err(error) => number(text@, radix as nat, limit as nat) == Err::<nat, NumberError>(
                error,
            ),
        },
{
    let chars = to_chars(text);
    if chars.len() == 0 {
        return Err(NumberError::Empty);
    }
    let mut index: usize = 0;
    if chars[0] == '+' {
        if chars.len() == 1 {
            return Err(NumberError::InvalidDigit);
        }
        index = 1;
    }
    let mut value: u64 = 0;
    while index < chars.len()
        invariant
            chars@ == text@,
            index <= chars@.len(),
            2 <= radix <= 16,
            value <= limit,
            number(text@, radix as nat, limit as nat) == number_from(
                text@,
                index as int,
                value as nat,
                radix as nat,
                limit as nat,
            ),
        decreases chars@.len() - index,
    {
        let digit = match digit_value_of(chars[index], radix) {
            Some(digit) => digit,
            None => {
                return Err(NumberError::InvalidDigit);
            },
        };
        assert(value * radix <= 0xffff_ffff_ffff_ffff * 16) by (nonlinear_arith)
            requires
                value <= 0xffff_ffff_ffff_ffff,
                radix <= 16,
        ;
        let extended: u128 = value as u128 * radix as u128 + digit as u128;
        if extended > limit as u128 {
            return Err(NumberError::TooLarge);
        }
        value = extended as u64;
        index = index + 1;
    }
    Ok(value)
}

proof fn lemma_number_from_push(
    text: Seq<char>,
    ch: char,
    start: int,
    leading: nat,
    radix: nat,
    limit: nat,
)
    requires
        0 <= start <= text.len(),
        number_from(text, start, leading, radix, limit) is Ok,
    ensures
        number_from(text.push(ch), start, leading, radix, limit) == number_from(
            text.push(ch),
            text.len() as int,
            number_from(text, start, leading, radix, limit)->Ok_0,
            radix,
            limit,
        ),
    decreases text.len() - start,
{
    if start < text.len() {
        let extended = leading * radix + digit_value(text[start], radix)->Some_0;
        assert(text.push(ch)[start] == text[start]);
        lemma_number_from_push(text, ch, start + 1, extended, radix, limit);
    }
}

proof fn lemma_number_from_shift(
    before: char,
    text: Seq<char>,
    start: int,
    leading: nat,
    radix: nat,
    limit: nat,
)
    requires
        0 <= start <= text.len(),
    ensures
        number_from(seq![before] + text, start + 1, leading, radix, limit) == number_from(
            text,
            start,
            leading,
            radix,
            limit,
        ),
    decreases text.len() - start,
{
    if start < text.len() {
        assert((seq![before] + text)[start + 1] == text[start]);
        match digit_value(text[start], radix) {
            Some(value) => {
                lemma_number_from_shift(
                    before,
                    text,
                    start + 1,
                    leading * radix + value,
                    radix,
                    limit,
                );
            },
            None => {},
        }
    }
}

/// Whether a character is a digit, in capitals where it is a letter.
pub open spec fn is_digit(ch: char, radix: nat) -> bool {
    ('0' <= ch && ch <= '9') || (radix > 10 && 'A' <= ch && ch <= 'F')
}

/// The digit of a value is read as that value.
proof fn lemma_digit_char(digit: nat, radix: nat)
    requires
        digit < radix <= 16,
    ensures
        digit_value(digit_char(digit), radix) == Some(digit),
        is_digit(digit_char(digit), radix),
{
}

/// A number is made of digits alone.
pub proof fn lemma_digits(number: nat, radix: nat)
    requires
        2 <= radix <= 16,
    ensures
        digits(number, radix).len() > 0,
        forall|i: int|
            0 <= i < digits(number, radix).len() ==> is_digit(
                #[trigger] digits(number, radix)[i],
                radix,
            ),
    decreases number,
{
    if number < radix {
        lemma_digit_char(number, radix);
    } else {
        vstd::arithmetic::div_mod::lemma_div_decreases(number as int, radix as int);
        vstd::arithmetic::div_mod::lemma_fundamental_div_mod(number as int, radix as int);
        lemma_digits(number / radix, radix);
        lemma_digit_char(number % radix, radix);
    }
}

proof fn lemma_number_from_digits(value: nat, radix: nat, limit: nat)
    requires
        2 <= radix <= 16,
        value <= limit,
    ensures
        number_from(digits(value, radix), 0, 0, radix, limit) == Ok::<nat, NumberError>(value),
    decreases value,
{
    if value < radix {
        lemma_digit_char(value, radix);
        assert(0 * radix == 0) by (nonlinear_arith);
        reveal_with_fuel(number_from, 2);
    } else {
        let front = value / radix;
        vstd::arithmetic::div_mod::lemma_div_decreases(value as int, radix as int);
        vstd::arithmetic::div_mod::lemma_fundamental_div_mod(value as int, radix as int);
        assert(radix * front == front * radix) by (nonlinear_arith);
        lemma_number_from_digits(front, radix, limit);
        lemma_digit_char(value % radix, radix);
        lemma_number_from_push(
            digits(front, radix),
            digit_char(value % radix),
            0,
            0,
            radix,
            limit,
        );
        reveal_with_fuel(number_from, 2);
    }
}

/// A number that is written down and is within the limit is read back as itself.
pub proof fn law_number_reads_back(value: nat, radix: nat, limit: nat)
    requires
        2 <= radix <= 16,
        value <= limit,
    ensures
        number(digits(value, radix), radix, limit) == Ok::<nat, NumberError>(value),
{
    lemma_digits(value, radix);
    lemma_number_from_digits(value, radix, limit);
}

/// A number that is written in hexadecimal with at least two digits is read back as itself.
pub proof fn law_padded_hex_reads_back(value: nat, limit: nat)
    requires
        value <= limit,
    ensures
        number(padded_hex(value), 16, limit) == Ok::<nat, NumberError>(value),
{
    lemma_digits(value, 16);
    lemma_number_from_digits(value, 16, limit);
    if value < 16 {
        lemma_number_from_shift('0', digits(value, 16), 0, 0, 16, limit);
    }
}

/// What is read is within the limit.
pub proof fn law_number_within_limit(text: Seq<char>, radix: nat, limit: nat)
    ensures
        number(text, radix, limit) matches Ok(value) ==> value <= limit,
{
    if text.len() > 0 {
        lemma_number_from_within_limit(text, 0, 0, radix, limit);
        lemma_number_from_within_limit(text, 1, 0, radix, limit);
    }
}

proof fn lemma_number_from_within_limit(
    text: Seq<char>,
    start: int,
    leading: nat,
    radix: nat,
    limit: nat,
)
    requires
        leading <= limit,
    ensures
        number_from(text, start, leading, radix, limit) matches Ok(value) ==> value <= limit,
    decreases text.len() - start,
{
    if start < text.len() {
        match digit_value(text[start], radix) {
            Some(value) => {
                let extended = leading * radix + value;
                if extended <= limit {
                    lemma_number_from_within_limit(text, start + 1, extended, radix, limit);
                }
            },
            None => {},
        }
    }
}

/// What can be read is a sign or nothing, and then digits.
pub proof fn lemma_number_characters(text: Seq<char>, radix: nat, limit: nat)
    requires
        number(text, radix, limit) is Ok,
    ensures
        text.len() > 0,
        forall|i: int|
            0 <= i < text.len() ==> #[trigger] text[i] == '+' || digit_value(text[i], radix) is Some,
{
    let start = if text[0] == '+' {
        1int
    } else {
        0int
    };
    lemma_number_from_characters(text, start, 0, radix, limit);
}

proof fn lemma_number_from_characters(
    text: Seq<char>,
    start: int,
    leading: nat,
    radix: nat,
    limit: nat,
)
    requires
        0 <= start,
        number_from(text, start, leading, radix, limit) is Ok,
    ensures
        forall|i: int| start <= i < text.len() ==> digit_value(#[trigger] text[i], radix) is Some,
    decreases text.len() - start,
{
    if start < text.len() {
        let extended = leading * radix + digit_value(text[start], radix)->Some_0;
        lemma_number_from_characters(text, start + 1, extended, radix, limit);
    }
}

} // verus!
