//! Marker colors and their textual form, `#RRGGBB`.

use vstd::prelude::*;
use vstd::string::*;
use vstd::utf8::is_ascii_chars_encode_utf8;

verus! {

/// A color with 8 bits per channel, alpha not premultiplied.
#[derive(Clone, Copy, Debug, PartialEq, Eq, Structural)]
pub struct Color {
    pub red: u8,
    pub green: u8,
    pub blue: u8,
    pub alpha: u8,
}

/// The color of a layer that nobody has styled: fully transparent black.
pub open spec fn transparent() -> Color {
    Color { red: 0, green: 0, blue: 0, alpha: 0 }
}

/// Whether `b` is the ASCII code of a hexadecimal digit, in either case.
pub open spec fn is_hex_digit(b: u8) -> bool {
    ||| 0x30 <= b <= 0x39
    ||| 0x41 <= b <= 0x46
    ||| 0x61 <= b <= 0x66
}

/// The number that the hexadecimal digit with ASCII code `b` stands for.
pub open spec fn hex_digit_value(b: u8) -> int
    recommends
        is_hex_digit(b),
{
    if b <= 0x39 {
        b - 0x30
    } else if b <= 0x46 {
        b - 0x41 + 10
    } else {
        b - 0x61 + 10
    }
}

/// Whether `digits` is an even number of hexadecimal digits.
pub open spec fn is_hex_text(digits: Seq<u8>) -> bool {
    &&& digits.len() % 2 == 0
    &&& forall|i: int| 0 <= i < digits.len() ==> is_hex_digit(#[trigger] digits[i])
}

/// The bytes that the hexadecimal text `digits` spells, two digits to a byte,
/// the high digit first.
pub open spec fn hex_text_bytes(digits: Seq<u8>) -> Seq<u8>
    recommends
        is_hex_text(digits),
{
    Seq::new(
        digits.len() / 2,
        |i: int| (16 * hex_digit_value(digits[2 * i]) + hex_digit_value(digits[2 * i + 1])) as u8,
    )
}

/// `hex::FromHexError`, the error of `hex::decode`.
#[verifier::external_type_specification]
#[verifier::external_body]
pub struct ExFromHexError(hex::FromHexError);

/// Calls `hex::decode` on a byte slice. The contract restates that function:
/// it succeeds exactly on an even number of ASCII hexadecimal digits of
/// either case, and then yields one byte per pair of digits, the first digit
/// of a pair being the high half.
#[verifier::external_body]
fn decode_hex(digits: &[u8]) -> (r: Result<Vec<u8>, hex::FromHexError>)
    ensures
        r is Ok <==> is_hex_text(digits@),
        r matches Ok(bytes) ==> bytes@ == hex_text_bytes(digits@),
{
    hex::decode(digits)
}

/// Whether `c` is a hexadecimal digit, in either case.
pub open spec fn is_hex_char(c: char) -> bool {
    ||| '0' <= c <= '9'
    ||| 'A' <= c <= 'F'
    ||| 'a' <= c <= 'f'
}

/// The number that the hexadecimal digit `c` stands for.
pub open spec fn hex_char_value(c: char) -> int
    recommends
        is_hex_char(c),
{
    if c <= '9' {
        c as int - '0' as int
    } else if c <= 'F' {
        c as int - 'A' as int + 10
    } else {
        c as int - 'a' as int + 10
    }
}

/// The channel value that two hexadecimal digits spell.
pub open spec fn channel(high: char, low: char) -> u8
    recommends
        is_hex_char(high),
        is_hex_char(low),
{
    (16 * hex_char_value(high) + hex_char_value(low)) as u8
}

/// The color that `text` denotes, if it denotes one.
///
/// A color is `#` followed by exactly six or exactly eight hexadecimal
/// digits. The first six digits give red, green and blue. The color is always
/// fully opaque: in the eight-digit form the last two digits must be
/// hexadecimal digits but their value is not used.
pub open spec fn color_of(text: Seq<char>) -> Option<Color> {
    if (text.len() == 7 || text.len() == 9) && text[0] == '#' && (forall|i: int|
        1 <= i < text.len() ==> is_hex_char(#[trigger] text[i])) {
        Some(
            Color {
                red: channel(text[1], text[2]),
                green: channel(text[3], text[4]),
                blue: channel(text[5], text[6]),
                alpha: 255,
            },
        )
    } else {
        None
    }
}

/// On ASCII text a byte and the character it encodes are the same
/// hexadecimal digit, or neither is one.
proof fn lemma_hex_digit_of_ascii(c: char, b: u8)
    requires
        '\0' <= c <= '\u{7f}',
        b == c as u8,
    ensures
        is_hex_digit(b) == is_hex_char(c),
        is_hex_char(c) ==> hex_digit_value(b) == hex_char_value(c),
        is_hex_char(c) ==> 0 <= hex_char_value(c) < 16,
{
}

/// Reads a color written as `#RRGGBB` or `#RRGGBBAA`.
pub fn parse_color(text: &str) -> (r: Option<Color>)
    ensures
        r == color_of(text@),
{
    let n = text.unicode_len();
    if n == 0 || text.get_char(0) != '#' {
        return None;
    }
    let digits = text.substring_char(1, n);
    if !digits.is_ascii() {
        proof {
            // A character beyond ASCII is no hexadecimal digit.
            let i = choose|i: int|
                0 <= i < digits@.len() && !('\0' <= #[trigger] digits@[i] <= '\u{7f}');
            assert(!is_hex_char(text@[i + 1]));
        }
        return None;
    }
    let bytes = digits.as_bytes();
    proof {
        is_ascii_chars_encode_utf8(digits@);
        assert forall|i: int| 0 <= i < digits@.len() implies is_hex_digit(#[trigger] bytes@[i])
            == is_hex_char(text@[i + 1]) && (is_hex_char(text@[i + 1]) ==> hex_digit_value(
            bytes@[i],
        ) == hex_char_value(text@[i + 1]) && 0 <= hex_char_value(text@[i + 1]) < 16) by {
            lemma_hex_digit_of_ascii(digits@[i], bytes@[i]);
        }
        if is_hex_text(bytes@) {
            assert forall|i: int| 1 <= i < text@.len() implies is_hex_char(
                #[trigger] text@[i],
            ) by {
                assert(is_hex_digit(bytes@[i - 1]));
            }
        }
    }
    match decode_hex(bytes) {
        Err(_) => None,
        Ok(decoded) => {
            if decoded.len() == 3 || decoded.len() == 4 {
                Some(Color { red: decoded[0], green: decoded[1], blue: decoded[2], alpha: 255 })
            } else {
                None
            }
        },
    }
}

} // verus!
