//! What texts stand for which numbers and bytes.
use vstd::prelude::*;

use crate::number::NumberError;

verus! {

/// A digit is a character from 0 to 9, or a letter from A on in either case where the radix goes
/// beyond ten, and stands for its place among them.
pub proof fn law_digit_values(ch: char, radix: nat, value: nat)
    requires
        2 <= radix <= 16,
    ensures
        crate::number::digit_value(ch, radix) == Some(value) <==> value < radix && ((value < 10
            && ch as int == 48 + value) || (value >= 10 && (ch as int == 55 + value || ch as int
            == 87 + value))),
{
}

proof fn lemma_error_stays(
    text: Seq<char>,
    ch: char,
    start: int,
    leading: nat,
    radix: nat,
    limit: nat,
)
    requires
        0 <= start <= text.len(),
        crate::number::number_from(text, start, leading, radix, limit) is Err,
    ensures
        crate::number::number_from(text.push(ch), start, leading, radix, limit)
            == crate::number::number_from(text, start, leading, radix, limit),
    decreases text.len() - start,
{
    assert(start < text.len());
    assert(text.push(ch)[start] == text[start]);
    match crate::number::digit_value(text[start], radix) {
        Some(value) => {
            let extended = leading * radix + value;
            if extended <= limit {
                lemma_error_stays(text, ch, start + 1, extended, radix, limit);
            }
        },
        None => {},
    }
}

proof fn lemma_digit_goes_on(
    text: Seq<char>,
    ch: char,
    start: int,
    leading: nat,
    radix: nat,
    limit: nat,
)
    requires
        0 <= start <= text.len(),
        crate::number::number_from(text, start, leading, radix, limit) is Ok,
    ensures
        ({
            let value = crate::number::number_from(text, start, leading, radix, limit)->Ok_0;
            crate::number::number_from(text.push(ch), start, leading, radix, limit) == (
            match crate::number::digit_value(ch, radix) {
                Some(digit) => if value * radix + digit > limit {
                    Err(NumberError::TooLarge)
                } else {
                    Ok(value * radix + digit)
                },
                None => Err(NumberError::InvalidDigit),
            })
        }),
    decreases text.len() - start,
{
    let longer = text.push(ch);
    if start < text.len() {
        assert(longer[start] == text[start]);
        let extended = leading * radix + crate::number::digit_value(text[start], radix)->Some_0;
        lemma_digit_goes_on(text, ch, start + 1, extended, radix, limit);
    } else {
        assert(longer[start] == ch);
        reveal_with_fuel(crate::number::number_from, 2);
    }
}

/// A character behind a number is one more digit, which counts once while what stands before it
/// counts by the radix. One that takes the number over the limit makes it too large, and one that
/// is no digit makes it no number. Once there is an error, it stays.
pub proof fn law_numbers_are_positional(text: Seq<char>, ch: char, radix: nat, limit: nat)
    requires
        text.len() > 0,
        text != seq!['+'],
    ensures
        crate::number::number(text.push(ch), radix, limit) == (match crate::number::number(
            text,
            radix,
            limit,
        ) {
            Ok(value) => match crate::number::digit_value(ch, radix) {
                Some(digit) => if value * radix + digit > limit {
                    Err(NumberError::TooLarge)
                } else {
                    Ok(value * radix + digit)
                },
                None => Err(NumberError::InvalidDigit),
            },
            Err(error) => Err(error),
        }),
{
    let longer = text.push(ch);
    let start = if text[0] == '+' {
        1int
    } else {
        0int
    };
    assert(longer[0] == text[0]);
    if text.len() == 1 && text[0] == '+' {
        assert(text =~= seq!['+']);
    }
    assert(crate::number::number(text, radix, limit) == crate::number::number_from(
        text,
        start,
        0,
        radix,
        limit,
    ));
    assert(crate::number::number(longer, radix, limit) == crate::number::number_from(
        longer,
        start,
        0,
        radix,
        limit,
    ));
    if crate::number::number_from(text, start, 0, radix, limit) is Ok {
        lemma_digit_goes_on(text, ch, start, 0, radix, limit);
    } else {
        lemma_error_stays(text, ch, start, 0, radix, limit);
    }
}

/// Numbers begin with one digit, before which a plus may stand. Nothing is no number, and neither
/// is a sign alone.
pub proof fn law_numbers_begin(ch: char, radix: nat, limit: nat)
    ensures
        crate::number::number(Seq::empty(), radix, limit) == Err::<nat, NumberError>(
            NumberError::Empty,
        ),
        crate::number::number(seq!['+'], radix, limit) == Err::<nat, NumberError>(
            NumberError::InvalidDigit,
        ),
        ch != '+' ==> crate::number::number(seq![ch], radix, limit) == (
        match crate::number::digit_value(ch, radix) {
            Some(digit) => if digit > limit {
                Err(NumberError::TooLarge)
            } else {
                Ok(digit)
            },
            None => Err(NumberError::InvalidDigit),
        }),
        crate::number::number(seq!['+', ch], radix, limit) == (match crate::number::digit_value(
            ch,
            radix,
        ) {
            Some(digit) => if digit > limit {
                Err(NumberError::TooLarge)
            } else {
                Ok(digit)
            },
            None => Err(NumberError::InvalidDigit),
        }),
{
    assert(0 * radix == 0) by (nonlinear_arith);
    reveal_with_fuel(crate::number::number_from, 3);
}

/// A number is written without zeros before it, in digits from 0 to 9 and capitals from A to F,
/// and is read back as itself.
pub proof fn law_written_numbers(value: nat, radix: nat, limit: nat, i: int)
    requires
        2 <= radix <= 16,
        value <= limit,
        0 <= i < crate::number::digits(value, radix).len(),
    ensures
        crate::number::digits(value, radix)[0] == '0' ==> value == 0 && crate::number::digits(
            value,
            radix,
        ).len() == 1,
        '0' <= crate::number::digits(value, radix)[i] <= '9' || (radix > 10 && 'A'
            <= crate::number::digits(value, radix)[i] <= 'F'),
        crate::number::number(crate::number::digits(value, radix), radix, limit) == Ok::<
            nat,
            NumberError,
        >(value),
{
    crate::number::lemma_digits(value, radix);
    crate::number::law_number_reads_back(value, radix, limit);
    lemma_no_leading_zero(value, radix);
}

proof fn lemma_no_leading_zero(value: nat, radix: nat)
    requires
        2 <= radix <= 16,
    ensures
        crate::number::digits(value, radix).len() > 0,
        crate::number::digits(value, radix)[0] == '0' ==> value == 0,
    decreases value,
{
    if value >= radix {
        vstd::arithmetic::div_mod::lemma_div_decreases(value as int, radix as int);
        vstd::arithmetic::div_mod::lemma_fundamental_div_mod(value as int, radix as int);
        let front = value / radix;
        assert(front > 0) by (nonlinear_arith)
            requires
                value >= radix,
                radix >= 2,
                front == value / radix,
        ;
        lemma_no_leading_zero(front, radix);
    }
}

/// A whole number is written as its digits, with a minus before them where it is negative, so
/// that it is read back from them. Different numbers are written differently.
pub proof fn law_decimals(value: int, other: int, limit: nat)
    requires
        -limit <= value <= limit,
    ensures
        value >= 0 ==> crate::number::number(crate::number::decimal(value), 10, limit) == Ok::<
            nat,
            NumberError,
        >(value as nat),
        value < 0 ==> crate::number::decimal(value).len() > 1 && crate::number::decimal(value)[0]
            == '-' && crate::number::number(
            crate::number::decimal(value).drop_first(),
            10,
            limit,
        ) == Ok::<nat, NumberError>((-value) as nat),
        -limit <= other <= limit && other != value ==> crate::number::decimal(other)
            != crate::number::decimal(value),
{
    lemma_decimal(value, limit);
    if -limit <= other <= limit {
        lemma_decimal(other, limit);
    }
}

proof fn lemma_decimal(value: int, limit: nat)
    requires
        -limit <= value <= limit,
    ensures
        value >= 0 ==> crate::number::number(crate::number::decimal(value), 10, limit) == Ok::<
            nat,
            NumberError,
        >(value as nat) && crate::number::decimal(value).len() > 0 && crate::number::decimal(
            value,
        )[0] != '-',
        value < 0 ==> crate::number::decimal(value).len() > 1 && crate::number::decimal(value)[0]
            == '-' && crate::number::number(
            crate::number::decimal(value).drop_first(),
            10,
            limit,
        ) == Ok::<nat, NumberError>((-value) as nat),
{
    if value >= 0 {
        crate::number::lemma_digits(value as nat, 10);
        crate::number::law_number_reads_back(value as nat, 10, limit);
    } else {
        let digits = crate::number::digits((-value) as nat, 10);
        crate::number::lemma_digits((-value) as nat, 10);
        crate::number::law_number_reads_back((-value) as nat, 10, limit);
        assert((seq!['-'] + digits).drop_first() =~= digits);
    }
}

/// A number in hexadecimal has two digits at least, a zero before it only to make them two, and
/// capitals. It is read back as itself, and a byte has two digits.
pub proof fn law_padded_hex(value: nat, limit: nat, i: int)
    requires
        value <= limit,
        0 <= i < crate::number::padded_hex(value).len(),
    ensures
        crate::number::padded_hex(value).len() >= 2,
        value < 256 ==> crate::number::padded_hex(value).len() == 2,
        crate::number::padded_hex(value)[0] == '0' ==> crate::number::padded_hex(value).len() == 2,
        '0' <= crate::number::padded_hex(value)[i] <= '9' || 'A' <= crate::number::padded_hex(
            value,
        )[i] <= 'F',
        crate::number::number(crate::number::padded_hex(value), 16, limit) == Ok::<
            nat,
            NumberError,
        >(value),
{
    crate::number::lemma_digits(value, 16);
    crate::number::law_padded_hex_reads_back(value, limit);
    lemma_no_leading_zero(value, 16);
    reveal_with_fuel(crate::number::digits, 3);
    if 16 <= value {
        crate::number::lemma_digits(value / 16, 16);
    }
}

proof fn lemma_byte_digits(byte: u8)
    ensures
        ({
            let text = crate::number::padded_hex(byte as nat);
            &&& text.len() == 2
            &&& crate::number::digit_value(text[0], 16) == Some((byte / 16) as nat)
            &&& crate::number::digit_value(text[1], 16) == Some((byte % 16) as nat)
            &&& !('a' <= text[0] <= 'f') && !('a' <= text[1] <= 'f')
        }),
{
    reveal_with_fuel(crate::number::digits, 3);
}

/// Bytes are shown as their two hexadecimal digits, the higher one first and in capitals, with a
/// comma and a space between each two.
pub proof fn law_bytes_are_shown_by_their_digits(bytes: Seq<u8>, i: int)
    requires
        0 <= i < bytes.len(),
    ensures
        crate::util::hex_list(bytes).len() == 4 * bytes.len() - 2,
        crate::number::digit_value(crate::util::hex_list(bytes)[4 * i], 16) == Some(
            (bytes[i] / 16) as nat,
        ),
        crate::number::digit_value(crate::util::hex_list(bytes)[4 * i + 1], 16) == Some(
            (bytes[i] % 16) as nat,
        ),
        !('a' <= crate::util::hex_list(bytes)[4 * i] <= 'f'),
        !('a' <= crate::util::hex_list(bytes)[4 * i + 1] <= 'f'),
        i < bytes.len() - 1 ==> crate::util::hex_list(bytes)[4 * i + 2] == ','
            && crate::util::hex_list(bytes)[4 * i + 3] == ' ',
    decreases bytes.len(),
{
    reveal_strlit(", ");
    let number = |byte: u8| crate::number::padded_hex(byte as nat);
    let parts = bytes.map_values(number);
    let text = crate::util::hex_list(bytes);
    lemma_byte_digits(bytes.last());
    assert(parts.last() == crate::number::padded_hex(bytes.last() as nat));
    if bytes.len() > 1 {
        let front = bytes.drop_last();
        let before = crate::util::hex_list(front);
        assert(parts.drop_last() =~= front.map_values(number));
        assert(text == before + ", "@ + parts.last());
        law_bytes_are_shown_by_their_digits(front, if i < front.len() {
            i
        } else {
            0
        });
        assert(before.len() == 4 * front.len() - 2);
    } else {
        assert(text == parts[0]);
    }
}

/// No bytes are shown as nothing.
pub proof fn law_no_bytes_are_shown_as_nothing()
    ensures
        crate::util::hex_list(Seq::empty()) == Seq::<char>::empty(),
{
    let parts = Seq::<u8>::empty().map_values(|byte: u8| crate::number::padded_hex(byte as nat));
    assert(parts.len() == 0);
}

/// Texts are read as bytes one by one, each without a comma behind it, and each as a number in
/// hexadecimal up to 255. The first text that is no such number is the error.
pub proof fn law_bytes_are_read_one_by_one(parts: Seq<Seq<char>>)
    ensures
        match crate::command::byte_values(parts) {
            Ok(bytes) => {
                &&& bytes.len() == parts.len()
                &&& forall|i: int|
                    0 <= i < parts.len() ==> crate::number::number(
                        crate::command::without_comma(#[trigger] parts[i]),
                        16,
                        255,
                    ) == Ok::<nat, NumberError>(bytes[i] as nat)
            },
            Err(error) => exists|i: int|
                {
                    &&& 0 <= i < parts.len()
                    &&& crate::number::number(
                        crate::command::without_comma(#[trigger] parts[i]),
                        16,
                        255,
                    ) == Err::<nat, NumberError>(error)
                    &&& forall|k: int|
                        0 <= k < i ==> crate::number::number(
                            crate::command::without_comma(#[trigger] parts[k]),
                            16,
                            255,
                        ) is Ok
                },
        },
    decreases parts.len(),
{
    if parts.len() > 0 {
        let rest = parts.drop_first();
        law_bytes_are_read_one_by_one(rest);
        let first = crate::number::number(crate::command::without_comma(parts[0]), 16, 255);
        match first {
            Err(error) => {
                assert(crate::number::number(
                    crate::command::without_comma(parts[0]),
                    16,
                    255,
                ) == Err::<nat, NumberError>(error));
            },
            Ok(byte) => {
                crate::number::law_number_within_limit(
                    crate::command::without_comma(parts[0]),
                    16,
                    255,
                );
                match crate::command::byte_values(rest) {
                    Ok(bytes) => {
                        let all = seq![byte as u8] + bytes;
                        assert forall|i: int| 0 <= i < parts.len() implies crate::number::number(
                            crate::command::without_comma(#[trigger] parts[i]),
                            16,
                            255,
                        ) == Ok::<nat, NumberError>(all[i] as nat) by {
                            if i > 0 {
                                assert(parts[i] == rest[i - 1]);
                            }
                        }
                    },
                    Err(error) => {
                        let i = choose|i: int|
                            {
                                &&& 0 <= i < rest.len()
                                &&& crate::number::number(
                                    crate::command::without_comma(#[trigger] rest[i]),
                                    16,
                                    255,
                                ) == Err::<nat, NumberError>(error)
                                &&& forall|k: int|
                                    0 <= k < i ==> crate::number::number(
                                        crate::command::without_comma(#[trigger] rest[k]),
                                        16,
                                        255,
                                    ) is Ok
                            };
                        assert(parts[i + 1] == rest[i]);
                        assert forall|k: int| 0 <= k < i + 1 implies crate::number::number(
                            crate::command::without_comma(#[trigger] parts[k]),
                            16,
                            255,
                        ) is Ok by {
                            if k > 0 {
                                assert(parts[k] == rest[k - 1]);
                            }
                        }
                    },
                }
            },
        }
    }
}

/// One comma behind a text is left out, and nothing else is.
pub proof fn law_comma_is_left_out(text: Seq<char>)
    ensures
        crate::command::without_comma(text.push(',')) == text,
        text.len() == 0 || text.last() != ',' ==> crate::command::without_comma(text) == text,
{
    assert(text.push(',').drop_last() =~= text);
}

/// A list of bytes is what stands between single spaces.
pub proof fn law_byte_lists(parts: Seq<Seq<char>>)
    requires
        parts.len() > 0,
        forall|i: int| 0 <= i < parts.len() ==> !(#[trigger] parts[i]).contains(' '),
    ensures
        crate::command::byte_list(crate::text::join(parts, " "@)) == crate::command::byte_values(
            parts,
        ),
{
    assert(" "@ =~= seq![' ']) by {
        reveal_strlit(" ");
    }
    crate::text::lemma_split_join(parts, ' ');
}

/// Texts are joined one behind the other, with the separator between them and nowhere else.
pub proof fn law_joining(parts: Seq<Seq<char>>, last: Seq<char>, separator: Seq<char>)
    ensures
        crate::text::join(Seq::empty(), separator) == Seq::<char>::empty(),
        crate::text::join(seq![last], separator) == last,
        parts.len() > 0 ==> crate::text::join(parts.push(last), separator) == crate::text::join(
            parts,
            separator,
        ) + separator + last,
{
    assert(parts.push(last).drop_last() =~= parts);
}

/// A text stands before another where it is the beginning of it, or has the smaller character at
/// the first place where they differ.
pub proof fn law_order_of_texts(left: Seq<char>, right: Seq<char>, n: int)
    requires
        0 <= n <= left.len(),
        n <= right.len(),
        forall|i: int| 0 <= i < n ==> left[i] == right[i],
        n < left.len() && n < right.len() ==> left[n] != right[n],
    ensures
        crate::order::precedes(left, right) == (n < right.len() && (n == left.len() || left[n]
            < right[n])),
{
    lemma_order_from(left, right, n, 0);
}

proof fn lemma_order_from(left: Seq<char>, right: Seq<char>, n: int, start: int)
    requires
        0 <= start <= n <= left.len(),
        n <= right.len(),
        forall|i: int| 0 <= i < n ==> left[i] == right[i],
        n < left.len() && n < right.len() ==> left[n] != right[n],
    ensures
        crate::order::precedes_from(left, right, start) == (n < right.len() && (n == left.len()
            || left[n] < right[n])),
    decreases n - start,
{
    if start < n {
        lemma_order_from(left, right, n, start + 1);
    }
}

} // verus!
