//! Percent-encoding of path components.
//!
//! Every byte of a text's UTF-8 form is kept where it is an ASCII letter, a digit or
//! one of `-`, `.`, `_`, `~`, and written as `%` and two upper-case hexadecimal digits
//! otherwise.

use vstd::prelude::*;
use vstd::utf8::{
    decode_utf8, encode_scalar, encode_utf8, encode_utf8_decode_utf8, encode_utf8_valid_utf8,
    has_width_1_encoding, leading_byte_width_1, valid_utf8,
};

verus! {

/// The bytes that percent-encoding leaves as they are.
pub open spec fn is_unreserved(b: u8) -> bool {
    ||| '0' as u8 <= b <= '9' as u8
    ||| 'A' as u8 <= b <= 'Z' as u8
    ||| 'a' as u8 <= b <= 'z' as u8
    ||| b == '-' as u8
    ||| b == '.' as u8
    ||| b == '_' as u8
    ||| b == '~' as u8
}

/// The upper-case hexadecimal digit of a value below sixteen.
pub open spec fn hex_digit(d: u8) -> char
    recommends
        d < 16,
{
    if d < 10 {
        (('0' as u8 + d) as u8) as char
    } else {
        (('A' as u8 + (d - 10)) as u8) as char
    }
}

/// What one byte becomes: itself where it is unreserved, otherwise `%` and its two
/// hexadecimal digits, the high one first.
pub open spec fn escape_byte(b: u8) -> Seq<char> {
    if is_unreserved(b) {
        seq![b as char]
    } else {
        seq!['%', hex_digit(b / 16), hex_digit(b % 16)]
    }
}

/// The escapes of all bytes, in order.
pub open spec fn escape_bytes(bytes: Seq<u8>) -> Seq<char>
    decreases bytes.len(),
{
    if bytes.len() == 0 {
        Seq::empty()
    } else {
        escape_byte(bytes[0]) + escape_bytes(bytes.drop_first())
    }
}

/// The percent-encoding of a text: the escapes of the bytes of its UTF-8 form.
pub open spec fn percent_encoded(text: Seq<char>) -> Seq<char> {
    escape_bytes(encode_utf8(text))
}

/// Whether `c` is a hexadecimal digit, in either case.
pub open spec fn is_hex(c: char) -> bool {
    ||| '0' <= c <= '9'
    ||| 'A' <= c <= 'F'
    ||| 'a' <= c <= 'f'
}

/// The value of a hexadecimal digit.
pub open spec fn hex_value(c: char) -> int
    recommends
        is_hex(c),
{
    if '0' <= c <= '9' {
        c as u32 - '0' as u32
    } else if 'A' <= c <= 'F' {
        c as u32 - 'A' as u32 + 10
    } else {
        c as u32 - 'a' as u32 + 10
    }
}

/// The bytes that a percent-encoded text stands for: `%` and two hexadecimal digits
/// give one byte, any other character gives the bytes of its UTF-8 form.
pub open spec fn unescape(text: Seq<char>) -> Seq<u8>
    decreases text.len(),
{
    if text.len() == 0 {
        Seq::empty()
    } else if text[0] == '%' && text.len() >= 3 && is_hex(text[1]) && is_hex(text[2]) {
        seq![(hex_value(text[1]) * 16 + hex_value(text[2])) as u8] + unescape(text.skip(3))
    } else {
        encode_scalar(text[0] as u32) + unescape(text.drop_first())
    }
}

/// The text that a percent-encoded text stands for, where its bytes are valid UTF-8.
pub open spec fn percent_decoded(text: Seq<char>) -> Option<Seq<char>> {
    if valid_utf8(unescape(text)) {
        Some(decode_utf8(unescape(text)))
    } else {
        None
    }
}

/// An unreserved byte is an ASCII character other than `%`, and its UTF-8 form is the
/// byte itself.
proof fn lemma_unreserved_char(b: u8)
    requires
        is_unreserved(b),
    ensures
        b as char != '%',
        encode_scalar((b as char) as u32) == seq![b],
{
    let scalar: u32 = (b as char) as u32;
    assert(scalar == b);
    assert(has_width_1_encoding(scalar));
    assert(leading_byte_width_1(scalar) == b) by (bit_vector)
        requires
            scalar == b,
            scalar <= 0x7F,
    ;
}

/// The two digits of an escape are hexadecimal digits and give the byte back.
proof fn lemma_hex_digits(b: u8)
    ensures
        is_hex(hex_digit(b / 16)),
        is_hex(hex_digit(b % 16)),
        hex_value(hex_digit(b / 16)) * 16 + hex_value(hex_digit(b % 16)) == b,
{
    let high: u8 = b / 16;
    let low: u8 = b % 16;
    assert(high < 16 && low < 16);
    assert(high * 16 + low == b);
}

/// Unescaping the escapes of a byte sequence gives the bytes back.
pub proof fn lemma_unescape_escape(bytes: Seq<u8>)
    ensures
        unescape(escape_bytes(bytes)) == bytes,
    decreases bytes.len(),
{
    if bytes.len() > 0 {
        let b = bytes[0];
        let rest = bytes.drop_first();
        let text = escape_bytes(bytes);
        lemma_unescape_escape(rest);
        if is_unreserved(b) {
            lemma_unreserved_char(b);
            assert(text[0] == b as char);
            assert(text.drop_first() =~= escape_bytes(rest));
            assert(unescape(text) =~= bytes);
        } else {
            lemma_hex_digits(b);
            assert(text[0] == '%');
            assert(text[1] == hex_digit(b / 16));
            assert(text[2] == hex_digit(b % 16));
            assert(text.skip(3) =~= escape_bytes(rest));
            assert(unescape(text) =~= bytes);
        }
    }
}

/// Percent-encoding loses nothing: decoding the encoding of any text gives that text.
pub proof fn lemma_percent_round_trip(text: Seq<char>)
    ensures
        percent_decoded(percent_encoded(text)) == Some(text),
{
    lemma_unescape_escape(encode_utf8(text));
    encode_utf8_valid_utf8(text);
    encode_utf8_decode_utf8(text);
}

/// Percent-encodes `text` with `urlencoding::encode`, which escapes every byte of the
/// UTF-8 form of its argument except ASCII letters, digits and `-`, `.`, `_`, `~`, each
/// escape being `%` and two upper-case hexadecimal digits.
#[verifier::external_body]
pub(crate) fn percent_encode(text: &str) -> (encoded: String)
    ensures
        encoded@ == percent_encoded(text@),
{
    urlencoding::encode(text).into_owned()
}

} // verus!
