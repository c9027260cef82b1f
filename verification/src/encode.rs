//! Percent-encoding of text for use inside a query string.

use vstd::prelude::*;
use vstd::utf8::encode_utf8;

verus! {

/// The bytes that percent-encoding leaves as they are: ASCII letters and
/// digits, `-`, `.`, `_` and `~`.
pub open spec fn is_unreserved(b: u8) -> bool {
    (0x30 <= b <= 0x39) || (0x41 <= b <= 0x5a) || (0x61 <= b <= 0x7a) || b == 0x2d || b == 0x2e
        || b == 0x5f || b == 0x7e
}

/// The upper-case hexadecimal digit for `d < 16`.
pub open spec fn upper_hex(d: u8) -> char {
    if d < 10 {
        ((0x30 + d) as u8) as char
    } else {
        ((0x41 + d - 10) as u8) as char
    }
}

/// One byte, percent-encoded: itself where it is unreserved, else `%` and
/// its two hexadecimal digits.
pub open spec fn encoded_byte(b: u8) -> Seq<char> {
    if is_unreserved(b) {
        seq![b as char]
    } else {
        seq!['%', upper_hex(b / 16), upper_hex(b % 16)]
    }
}

/// The percent-encoding of a byte sequence.
pub open spec fn encoded_bytes(bytes: Seq<u8>) -> Seq<char>
    decreases bytes.len(),
{
    if bytes.len() == 0 {
        Seq::empty()
    } else {
        encoded_byte(bytes[0]) + encoded_bytes(bytes.drop_first())
    }
}

/// The percent-encoding of a text: that of its UTF-8 bytes.
pub open spec fn percent_encoded(s: Seq<char>) -> Seq<char> {
    encoded_bytes(encode_utf8(s))
}

/// The characters that a percent-encoded text is made of.
pub open spec fn is_encoded_char(c: char) -> bool {
    c == '%' || c == '-' || c == '.' || c == '_' || c == '~' || ('0' <= c <= '9') || ('A' <= c
        <= 'Z') || ('a' <= c <= 'z')
}

/// A percent-encoded text holds nothing but letters, digits, `-`, `.`, `_`,
/// `~` and `%`; so none of `&`, `=`, `?`, `#`, `+` or `/`.
pub proof fn lemma_encoded_chars(bytes: Seq<u8>)
    ensures
        forall|i: int| 0 <= i < encoded_bytes(bytes).len() ==> is_encoded_char(
            #[trigger] encoded_bytes(bytes)[i],
        ),
    decreases bytes.len(),
{
    if bytes.len() > 0 {
        let b = bytes[0];
        let head = encoded_byte(b);
        lemma_encoded_chars(bytes.drop_first());
        assert(is_encoded_char(upper_hex(b / 16)));
        assert(is_encoded_char(upper_hex(b % 16)));
        if is_unreserved(b) {
            assert(is_encoded_char(b as char));
        }
        assert forall|i: int| 0 <= i < encoded_bytes(bytes).len() implies is_encoded_char(
            #[trigger] encoded_bytes(bytes)[i],
        ) by {
            if i < head.len() {
                assert(encoded_bytes(bytes)[i] == head[i]);
            } else {
                assert(encoded_bytes(bytes)[i] == encoded_bytes(bytes.drop_first())[i
                    - head.len()]);
            }
        }
    }
}

/// Percent-encodes `s` with `urlencoding::encode`, which encodes the UTF-8
/// bytes of its argument one by one: a byte that is an ASCII letter or digit
/// or one of `-`, `.`, `_`, `~` is copied, every other byte becomes `%` and
/// two upper-case hexadecimal digits. The contract states exactly that.
#[verifier::external_body]
pub(crate) fn percent_encode(s: &str) -> (out: String)
    ensures
        out@ == percent_encoded(s@),
{
    urlencoding::encode(s).into_owned()
}

} // verus!
