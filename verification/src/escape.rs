//! Percent-encoding of text that is to travel as the value of a query parameter.

use vstd::prelude::*;
use vstd::utf8::encode_utf8;

verus! {

/// Whether `byte` is a letter, a digit, or one of `-`, `.`, `_`, `~`: the bytes
/// that percent-encoding leaves as they are.
pub open spec fn is_unreserved(byte: u8) -> bool {
    ||| 0x30 <= byte <= 0x39
    ||| 0x41 <= byte <= 0x5a
    ||| 0x61 <= byte <= 0x7a
    ||| byte == 0x2d
    ||| byte == 0x2e
    ||| byte == 0x5f
    ||| byte == 0x7e
}

/// The ASCII code of the upper-case hexadecimal digit for `value`.
pub open spec fn hex_digit(value: int) -> u8
    recommends
        0 <= value < 16,
{
    if value < 10 {
        (0x30 + value) as u8
    } else {
        (0x41 + value - 10) as u8
    }
}

/// What percent-encoding writes for one byte: the byte itself if it is unreserved,
/// else `%` and the byte's two hexadecimal digits.
pub open spec fn escaped_byte(byte: u8) -> Seq<u8> {
    if is_unreserved(byte) {
        seq![byte]
    } else {
        seq![0x25u8, hex_digit(byte as int / 16), hex_digit(byte as int % 16)]
    }
}

/// What percent-encoding writes for a run of bytes: each byte's encoding, in order.
pub open spec fn escaped_bytes(bytes: Seq<u8>) -> Seq<u8>
    decreases bytes.len(),
{
    if bytes.len() == 0 {
        Seq::empty()
    } else {
        escaped_bytes(bytes.drop_last()) + escaped_byte(bytes.last())
    }
}

/// The text whose characters have the given ASCII codes.
pub open spec fn ascii_text(bytes: Seq<u8>) -> Seq<char> {
    Seq::new(bytes.len(), |i: int| bytes[i] as char)
}

/// The percent-encoding of `text`, taken over its UTF-8 bytes.
pub open spec fn percent_encoded(text: Seq<char>) -> Seq<char> {
    ascii_text(escaped_bytes(encode_utf8(text)))
}

/// Whether `c` may stand in a percent-encoded text: `%` or an unreserved character.
pub open spec fn is_query_safe(c: char) -> bool {
    c == '%' || (c as u32 <= 0x7f && is_unreserved(c as u8))
}

/// Percent-encodes `text`.
///
/// Trusted: the body is `urlencoding::encode`, which encodes the UTF-8 bytes of
/// its argument one by one, keeping ASCII letters, digits, `-`, `.`, `_` and `~`, and
/// writing every other byte as `%` followed by its two upper-case hexadecimal
/// digits. The contract states that, byte for byte.
#[verifier::external_body]
pub(crate) fn percent_encode(text: &str) -> (encoded: String)
    ensures
        encoded@ == percent_encoded(text@),
{
    urlencoding::encode(text).into_owned()
}

/// Every byte that percent-encoding writes is `%` or unreserved.
proof fn lemma_escaped_bytes_safe(bytes: Seq<u8>)
    ensures
        forall|i: int|
            0 <= i < escaped_bytes(bytes).len() ==> {
                let b = #[trigger] escaped_bytes(bytes)[i];
                b == 0x25 || is_unreserved(b)
            },
    decreases bytes.len(),
{
    if bytes.len() > 0 {
        lemma_escaped_bytes_safe(bytes.drop_last());
        let head = escaped_bytes(bytes.drop_last());
        let tail = escaped_byte(bytes.last());
        assert forall|i: int| 0 <= i < escaped_bytes(bytes).len() implies {
            let b = #[trigger] escaped_bytes(bytes)[i];
            b == 0x25 || is_unreserved(b)
        } by {
            if i < head.len() {
                assert(escaped_bytes(bytes)[i] == head[i]);
            } else {
                assert(escaped_bytes(bytes)[i] == tail[i - head.len()]);
            }
        }
    }
}

/// A percent-encoded text holds nothing but `%` and unreserved characters, so no
/// `&`, `=`, `#` or space that could end the parameter it is the value of.
pub proof fn lemma_percent_encoded_is_safe(text: Seq<char>)
    ensures
        forall|i: int|
            0 <= i < percent_encoded(text).len() ==> is_query_safe(
                #[trigger] percent_encoded(text)[i],
            ),
{
    let bytes = escaped_bytes(encode_utf8(text));
    lemma_escaped_bytes_safe(encode_utf8(text));
    assert forall|i: int| 0 <= i < percent_encoded(text).len() implies is_query_safe(
        #[trigger] percent_encoded(text)[i],
    ) by {
        let b = bytes[i];
        assert(b == 0x25 || is_unreserved(b));
        assert(percent_encoded(text)[i] == b as char);
        assert(b < 0x80);
        assert(b as char as u32 == b as u32);
        assert(b as char as u8 == b);
        if b == 0x25 {
            assert(b as char == '%');
        }
    }
}

} // verus!
