//! Percent-encoding of bytes, as used for inline page content.
//!
//! The profile is the strictest common one: every byte is written as `%`
//! and two upper-case hexadecimal digits, except ASCII letters, digits,
//! `-`, `.`, `_` and `~`, which stand for themselves.

use vstd::prelude::*;
use vstd::string::StringSliceAdditionalSpecFns;
use vstd::utf8::encode_utf8;

verus! {

/// Whether `byte` stands for itself in an encoded string.
pub open spec fn is_unreserved(byte: u8) -> bool {
    ||| 0x30 <= byte <= 0x39
    ||| 0x41 <= byte <= 0x5a
    ||| 0x61 <= byte <= 0x7a
    ||| byte == 0x2d
    ||| byte == 0x2e
    ||| byte == 0x5f
    ||| byte == 0x7e
}

/// The upper-case hexadecimal digit, in ASCII, for a value below 16.
pub open spec fn hex_digit(value: int) -> u8 {
    if value < 10 {
        (0x30 + value) as u8
    } else {
        (0x41 - 10 + value) as u8
    }
}

/// The value of an ASCII hexadecimal digit of either case, if `byte` is one.
pub open spec fn hex_value(byte: u8) -> Option<int> {
    if 0x30 <= byte <= 0x39 {
        Some(byte - 0x30)
    } else if 0x41 <= byte <= 0x46 {
        Some(byte - 0x41 + 10)
    } else if 0x61 <= byte <= 0x66 {
        Some(byte - 0x61 + 10)
    } else {
        None
    }
}

/// The three bytes that stand for `byte` when it is escaped.
pub open spec fn escaped_byte(byte: u8) -> Seq<u8> {
    seq![0x25u8, hex_digit(byte as int / 16), hex_digit(byte as int % 16)]
}

/// The percent-encoding of `bytes`.
pub open spec fn percent_encoded(bytes: Seq<u8>) -> Seq<u8>
    decreases bytes.len(),
{
    if bytes.len() == 0 {
        Seq::empty()
    } else if is_unreserved(bytes[0]) {
        seq![bytes[0]] + percent_encoded(bytes.drop_first())
    } else {
        escaped_byte(bytes[0]) + percent_encoded(bytes.drop_first())
    }
}

/// Whether `bytes` begins with `%` and two hexadecimal digits.
pub open spec fn starts_with_escape(bytes: Seq<u8>) -> bool {
    &&& bytes.len() >= 3
    &&& bytes[0] == 0x25u8
    &&& hex_value(bytes[1]) is Some
    &&& hex_value(bytes[2]) is Some
}

/// The bytes that `bytes` stands for: each `%` followed by two hexadecimal
/// digits becomes the byte they spell, and every other byte stays.
pub open spec fn percent_decoded(bytes: Seq<u8>) -> Seq<u8>
    decreases bytes.len(),
{
    if bytes.len() == 0 {
        Seq::empty()
    } else if starts_with_escape(bytes) {
        seq![(hex_value(bytes[1])->0 * 16 + hex_value(bytes[2])->0) as u8] + percent_decoded(
            bytes.skip(3),
        )
    } else {
        seq![bytes[0]] + percent_decoded(bytes.drop_first())
    }
}

/// Calls `urlencoding::encode`. The UTF-8 bytes of its result are the
/// percent-encoding of the bytes of `data`: the crate leaves ASCII letters,
/// digits, `-`, `.`, `_` and `~` as they are and writes every other byte as
/// `%` and two upper-case hexadecimal digits.
#[verifier::external_body]
pub(crate) fn encode_text(data: &str) -> (r: String)
    ensures
        encode_utf8(r@) == percent_encoded(data.spec_bytes()),
{
    urlencoding::encode(data)
}

/// Calls `percent_encoding::percent_decode` and collects the bytes it
/// yields: each `%` followed by two hexadecimal digits of either case is
/// replaced by the byte they spell, and everything else is passed through.
#[verifier::external_body]
pub(crate) fn decode_bytes(input: &[u8]) -> (r: Vec<u8>)
    ensures
        r@ == percent_decoded(input@),
{
    percent_encoding::percent_decode(input).collect()
}

/// A byte that is escaped decodes to itself.
proof fn lemma_escape_decodes(byte: u8)
    ensures
        starts_with_escape(escaped_byte(byte)),
        hex_value(escaped_byte(byte)[1])->0 * 16 + hex_value(escaped_byte(byte)[2])->0 == byte,
{
    let high = byte as int / 16;
    let low = byte as int % 16;
    assert(0 <= high < 16 && 0 <= low < 16);
    assert(hex_value(hex_digit(high)) == Some(high));
    assert(hex_value(hex_digit(low)) == Some(low));
}

/// Decoding undoes encoding: for every byte string, the percent-decoding
/// of its percent-encoding is the string itself.
pub proof fn lemma_decode_inverts_encode(bytes: Seq<u8>)
    ensures
        percent_decoded(percent_encoded(bytes)) == bytes,
    decreases bytes.len(),
{
    if bytes.len() > 0 {
        let rest = bytes.drop_first();
        let tail = percent_encoded(rest);
        lemma_decode_inverts_encode(rest);
        if is_unreserved(bytes[0]) {
            let encoded = seq![bytes[0]] + tail;
            assert(!starts_with_escape(encoded));
            assert(encoded.drop_first() =~= tail);
            assert(percent_decoded(encoded) =~= seq![bytes[0]] + rest);
        } else {
            let encoded = escaped_byte(bytes[0]) + tail;
            lemma_escape_decodes(bytes[0]);
            assert(encoded[0] == escaped_byte(bytes[0])[0]);
            assert(encoded[1] == escaped_byte(bytes[0])[1]);
            assert(encoded[2] == escaped_byte(bytes[0])[2]);
            assert(starts_with_escape(encoded));
            assert(encoded.skip(3) =~= tail);
            assert(percent_decoded(encoded) =~= seq![bytes[0]] + rest);
        }
        assert(seq![bytes[0]] + rest =~= bytes);
    }
}

/// Every byte of an encoded string is ASCII, and none is NUL.
pub proof fn lemma_encoded_is_plain(bytes: Seq<u8>)
    ensures
        forall|i: int|
            0 <= i < percent_encoded(bytes).len() ==> 0 < #[trigger] percent_encoded(bytes)[i]
                < 0x80,
    decreases bytes.len(),
{
    if bytes.len() > 0 {
        lemma_encoded_is_plain(bytes.drop_first());
        let tail = percent_encoded(bytes.drop_first());
        if is_unreserved(bytes[0]) {
            assert forall|i: int| 0 <= i < percent_encoded(bytes).len() implies 0
                < #[trigger] percent_encoded(bytes)[i] < 0x80 by {
                if i > 0 {
                    assert(percent_encoded(bytes)[i] == tail[i - 1]);
                }
            }
        } else {
            let high = bytes[0] as int / 16;
            let low = bytes[0] as int % 16;
            assert(0 <= high < 16 && 0 <= low < 16);
            assert forall|i: int| 0 <= i < percent_encoded(bytes).len() implies 0
                < #[trigger] percent_encoded(bytes)[i] < 0x80 by {
                if i >= 3 {
                    assert(percent_encoded(bytes)[i] == tail[i - 3]);
                }
            }
        }
    }
}

} // verus!
