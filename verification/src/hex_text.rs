//! Hexadecimal text: what it means as bytes, and the calls that convert
//! between the two.
use crate::types::DecodeError;
use vstd::prelude::*;

verus! {

/// The error of `hex::decode`. Nothing is read from it: every failure of the
/// decoder is reported as [`DecodeError::InvalidEncoding`].
#[verifier::external_type_specification]
#[verifier::external_body]
pub struct ExFromHexError(hex::FromHexError);

/// Whether `c` is one of `0`-`9`, `a`-`f`, `A`-`F`.
pub open spec fn is_hex_digit(c: char) -> bool {
    ||| '0' as u32 <= c as u32 <= '9' as u32
    ||| 'a' as u32 <= c as u32 <= 'f' as u32
    ||| 'A' as u32 <= c as u32 <= 'F' as u32
}

/// The value, 0 to 15, of the hex digit `c`.
pub open spec fn digit_value(c: char) -> int
    recommends
        is_hex_digit(c),
{
    if 'a' as u32 <= c as u32 <= 'f' as u32 {
        c as u32 - 'a' as u32 + 10
    } else if 'A' as u32 <= c as u32 <= 'F' as u32 {
        c as u32 - 'A' as u32 + 10
    } else {
        c as u32 - '0' as u32
    }
}

/// The lower-case hex digit of the value `n`, 0 to 15.
pub open spec fn hex_digit(n: int) -> char
    recommends
        0 <= n < 16,
{
    if n == 0 {
        '0'
    } else if n == 1 {
        '1'
    } else if n == 2 {
        '2'
    } else if n == 3 {
        '3'
    } else if n == 4 {
        '4'
    } else if n == 5 {
        '5'
    } else if n == 6 {
        '6'
    } else if n == 7 {
        '7'
    } else if n == 8 {
        '8'
    } else if n == 9 {
        '9'
    } else if n == 10 {
        'a'
    } else if n == 11 {
        'b'
    } else if n == 12 {
        'c'
    } else if n == 13 {
        'd'
    } else if n == 14 {
        'e'
    } else {
        'f'
    }
}

/// Whether every character of `text` is a hex digit.
pub open spec fn all_hex_digits(text: Seq<char>) -> bool {
    forall|i: int| 0 <= i < text.len() ==> is_hex_digit(#[trigger] text[i])
}

/// Whether `text` spells a byte sequence: hex digits, two to a byte.
pub open spec fn is_hex_text(text: Seq<char>) -> bool {
    text.len() % 2 == 0 && all_hex_digits(text)
}

/// The bytes that the hex text `text` spells: each pair of digits is one
/// byte, the high digit first.
pub open spec fn hex_bytes(text: Seq<char>) -> Seq<u8>
    recommends
        is_hex_text(text),
{
    Seq::new(
        text.len() / 2,
        |i: int| (16 * digit_value(text[2 * i]) + digit_value(text[2 * i + 1])) as u8,
    )
}

/// The lower-case hex text of `data`: two digits for each byte, the high
/// digit first.
pub open spec fn hex_text(data: Seq<u8>) -> Seq<char> {
    Seq::new(
        2 * data.len(),
        |i: int|
            if i % 2 == 0 {
                hex_digit(data[i / 2] as int / 16)
            } else {
                hex_digit(data[i / 2] as int % 16)
            },
    )
}

/// Whether `text` opens with `0x`.
pub open spec fn has_prefix(text: Seq<char>) -> bool {
    text.len() >= 2 && text[0] == '0' && text[1] == 'x'
}

/// `text` without its `0x` prefix, if it has one.
pub open spec fn strip_prefix(text: Seq<char>) -> Seq<char> {
    if has_prefix(text) {
        text.skip(2)
    } else {
        text
    }
}

/// `text` with a `0` put in front where its length is odd.
pub open spec fn pad_even(text: Seq<char>) -> Seq<char> {
    if text.len() % 2 == 1 {
        seq!['0'] + text
    } else {
        text
    }
}

/// The digits of the input text `text`: its `0x` prefix taken off once, then
/// padded in front to an even length.
pub open spec fn payload(text: Seq<char>) -> Seq<char> {
    pad_even(strip_prefix(text))
}

/// Calls `hex::decode` on `text`.
///
/// The call succeeds exactly on text of even length that holds hex digits
/// only, of either case, and then returns one byte for each pair of digits,
/// the first digit of a pair being the high half. The decoder reads the bytes
/// of the text: a character outside ASCII is encoded in bytes that are no
/// hex digits, so such text fails like any other text with a wrong character.
#[verifier::external_body]
pub(crate) fn hex_decode(text: &str) -> (r: Result<Vec<u8>, hex::FromHexError>)
    ensures
        match r {
            Ok(bytes) => is_hex_text(text@) && bytes@ == hex_bytes(text@),
            Err(_) => !is_hex_text(text@),
        },
{
    hex::decode(text)
}

/// Calls `hex::encode` on `data`.
///
/// The result holds two lower-case hex digits for each byte, in order, the
/// high half of a byte first.
#[verifier::external_body]
pub(crate) fn hex_encode(data: &[u8]) -> (s: String)
    ensures
        s@ == hex_text(data@),
{
    hex::encode(data)
}

/// A digit's value is the value it was made from.
pub proof fn lemma_digit_round_trip(n: int)
    requires
        0 <= n < 16,
    ensures
        is_hex_digit(hex_digit(n)),
        digit_value(hex_digit(n)) == n,
{
}

/// Bytes written as hex text read back as the same bytes.
pub proof fn lemma_hex_round_trip(data: Seq<u8>)
    ensures
        is_hex_text(hex_text(data)),
        hex_bytes(hex_text(data)) == data,
{
    let text = hex_text(data);
    assert forall|i: int| 0 <= i < text.len() implies is_hex_digit(#[trigger] text[i]) by {
        lemma_digit_round_trip(data[i / 2] as int / 16);
        lemma_digit_round_trip(data[i / 2] as int % 16);
    }
    assert forall|i: int| 0 <= i < data.len() implies hex_bytes(text)[i] == data[i] by {
        lemma_digit_round_trip(data[i] as int / 16);
        lemma_digit_round_trip(data[i] as int % 16);
    }
}

/// Padding in front keeps text made of hex digits made of hex digits, and
/// makes its length even.
pub proof fn lemma_payload_is_hex(text: Seq<char>)
    ensures
        is_hex_text(payload(text)) <==> all_hex_digits(strip_prefix(text)),
{
    let digits = strip_prefix(text);
    let padded = pad_even(digits);
    if digits.len() % 2 == 1 {
        if all_hex_digits(digits) {
            assert forall|i: int| 0 <= i < padded.len() implies is_hex_digit(
                #[trigger] padded[i],
            ) by {}
        }
        if all_hex_digits(padded) {
            assert forall|i: int| 0 <= i < digits.len() implies is_hex_digit(
                #[trigger] digits[i],
            ) by {
                assert(digits[i] == padded[i + 1]);
            }
        }
    }
}

/// Reads hex text into bytes.
///
/// A `0x` in front is taken off, once. Text with an odd number of digits is
/// read as if a `0` stood in front of it. Text that holds anything but hex
/// digits is refused.
pub fn parse_hex(input: &str) -> (r: Result<Vec<u8>, DecodeError>)
    ensures
        match r {
            Ok(bytes) => all_hex_digits(strip_prefix(input@)) && bytes@ == hex_bytes(
                payload(input@),
            ),
            Err(e) => !all_hex_digits(strip_prefix(input@)) && e == DecodeError::InvalidEncoding,
        },
{
    let n = input.unicode_len();
    let prefixed = n >= 2 && input.get_char(0) == '0' && input.get_char(1) == 'x';
    let digits = if prefixed {
        input.substring_char(2, n)
    } else {
        input
    };
    let odd = digits.unicode_len() % 2 == 1;
    let decoded = if odd {
        proof {
            reveal_strlit("0");
        }
        let padded = String::from_str("0").concat(digits);
        assert(padded@ =~= payload(input@));
        hex_decode(padded.as_str())
    } else {
        hex_decode(digits)
    };
    proof {
        lemma_payload_is_hex(input@);
    }
    match decoded {
        Ok(bytes) => Ok(bytes),
        Err(_) => Err(DecodeError::InvalidEncoding),
    }
}

} // verus!
