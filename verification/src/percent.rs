//! Percent-encoding of link targets.
//!
//! The encoding is done by `urlencoding`; what it produces is stated here
//! byte for byte, and decoding is shown to undo it.
use vstd::prelude::*;
use vstd::utf8::encode_utf8;

use crate::ascii::{DOT, MINUS, PERCENT, TILDE, UNDERSCORE};

verus! {

/// The bytes that stand for themselves in a link target: the ASCII letters
/// and digits and `-`, `.`, `_`, `~`.
pub open spec fn is_unreserved(b: u8) -> bool {
    (0x30 <= b <= 0x39) || (0x41 <= b <= 0x5a) || (0x61 <= b <= 0x7a) || b == MINUS || b == DOT
        || b == UNDERSCORE || b == TILDE
}

/// The upper-case hexadecimal digit for a value below 16.
pub open spec fn hex_digit(value: u8) -> u8 {
    if value < 10 {
        (0x30 + value) as u8
    } else {
        (0x41 + value - 10) as u8
    }
}

/// One byte, encoded: itself, or a percent sign and its two hexadecimal
/// digits.
pub open spec fn encoded_byte(b: u8) -> Seq<u8> {
    if is_unreserved(b) {
        seq![b]
    } else {
        seq![PERCENT, hex_digit(b / 16), hex_digit(b % 16)]
    }
}

/// A sequence of bytes, percent-encoded.
pub open spec fn percent_encoded(bytes: Seq<u8>) -> Seq<u8>
    decreases bytes.len(),
{
    if bytes.len() == 0 {
        seq![]
    } else {
        encoded_byte(bytes.first()) + percent_encoded(bytes.drop_first())
    }
}

/// Whether a byte is a hexadecimal digit, in either case.
pub open spec fn is_hex_digit(b: u8) -> bool {
    (0x30 <= b <= 0x39) || (0x41 <= b <= 0x46) || (0x61 <= b <= 0x66)
}

/// The value of a hexadecimal digit.
pub open spec fn hex_value(b: u8) -> u8 {
    if 0x30 <= b <= 0x39 {
        (b - 0x30) as u8
    } else if 0x41 <= b <= 0x46 {
        (b - 0x41 + 10) as u8
    } else {
        (b - 0x61 + 10) as u8
    }
}

/// A percent-encoded sequence of bytes, decoded: a percent sign and two
/// hexadecimal digits give the byte they spell, every other byte gives
/// itself.
pub open spec fn percent_decoded(text: Seq<u8>) -> Seq<u8>
    decreases text.len(),
{
    if text.len() == 0 {
        seq![]
    } else if text[0] == PERCENT && text.len() >= 3 && is_hex_digit(text[1]) && is_hex_digit(
        text[2],
    ) {
        seq![(hex_value(text[1]) * 16 + hex_value(text[2])) as u8] + percent_decoded(text.skip(3))
    } else {
        seq![text[0]] + percent_decoded(text.skip(1))
    }
}

/// `urlencoding::encode`: every byte of the text but the ASCII letters and
/// digits and `-`, `.`, `_`, `~` becomes a percent sign and two upper-case
/// hexadecimal digits.
#[verifier::external_body]
pub(crate) fn encode(text: &str) -> (out: String)
    ensures
        encode_utf8(out@) == percent_encoded(encode_utf8(text@)),
{
    urlencoding::encode(text).into_owned()
}

/// Decoding one encoded byte, with anything behind it, gives the byte and
/// what the rest decodes to.
proof fn lemma_decode_encoded_byte(b: u8, rest: Seq<u8>)
    ensures
        percent_decoded(encoded_byte(b) + rest) == seq![b] + percent_decoded(rest),
{
    let text = encoded_byte(b) + rest;
    if is_unreserved(b) {
        assert(text.skip(1) =~= rest);
    } else {
        assert(text.skip(3) =~= rest);
    }
}

/// Percent-decoding undoes percent-encoding.
pub proof fn lemma_percent_round_trip(bytes: Seq<u8>)
    ensures
        percent_decoded(percent_encoded(bytes)) == bytes,
    decreases bytes.len(),
{
    if bytes.len() > 0 {
        lemma_decode_encoded_byte(bytes.first(), percent_encoded(bytes.drop_first()));
        lemma_percent_round_trip(bytes.drop_first());
    }
}

} // verus!
