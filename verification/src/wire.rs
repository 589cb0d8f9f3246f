//! Framing of a payload: the bytes of one message are read as UTF-8 text and
//! trailing white space is cut off before the text is parsed.

use vstd::prelude::*;
use vstd::slice::slice_subrange;
use vstd::string::*;
use vstd::utf8::*;

verus! {

/// The characters with the Unicode property `White_Space`.
pub open spec fn is_white_space(c: char) -> bool {
    let u = c as u32;
    ||| 0x09 <= u <= 0x0D
    ||| u == 0x20
    ||| u == 0x85
    ||| u == 0xA0
    ||| u == 0x1680
    ||| 0x2000 <= u <= 0x200A
    ||| u == 0x2028
    ||| u == 0x2029
    ||| u == 0x202F
    ||| u == 0x205F
    ||| u == 0x3000
}

/// A text without the white space at its end: the longest prefix that is
/// empty or ends in a character that is no white space.
pub open spec fn without_trailing_space(s: Seq<char>) -> Seq<char>
    decreases s.len(),
{
    if s.len() > 0 && is_white_space(s.last()) {
        without_trailing_space(s.drop_last())
    } else {
        s
    }
}

/// Calls `std::str::from_utf8` and drops the error's detail. Believed: it
/// accepts exactly the byte sequences that are valid UTF-8, and the text it
/// returns is made of the bytes it was given.
#[verifier::external_body]
pub(crate) fn utf8_text(bytes: &[u8]) -> (r: Option<&str>)
    ensures
        r.is_some() == valid_utf8(bytes@),
        r matches Some(s) ==> s.spec_bytes() == bytes@,
{
    std::str::from_utf8(bytes).ok()
}

/// Calls `str::trim_end`. Believed: it removes the trailing characters
/// that have the Unicode property `White_Space`, and nothing else.
#[verifier::external_body]
pub(crate) fn trim_trailing_space(text: &str) -> (r: &str)
    ensures
        r@ == without_trailing_space(text@),
{
    text.trim_end()
}

/// The bytes that one read put into a buffer: the first `count` of them, or
/// the whole buffer where `count` is larger.
pub open spec fn received(buffer: Seq<u8>, count: usize) -> Seq<u8> {
    if count <= buffer.len() {
        buffer.subrange(0, count as int)
    } else {
        buffer
    }
}

/// The part of a buffer that one read has filled.
pub fn received_bytes(buffer: &[u8], count: usize) -> (r: &[u8])
    ensures
        r@ == received(buffer@, count),
{
    if count <= buffer.len() {
        slice_subrange(buffer, 0, count)
    } else {
        buffer
    }
}

/// The text of a payload: its bytes read as UTF-8, without trailing white
/// space; `None` where the bytes are no valid UTF-8.
pub open spec fn payload_text(payload: Seq<u8>) -> Option<Seq<char>> {
    if valid_utf8(payload) {
        Some(without_trailing_space(decode_utf8(payload)))
    } else {
        None
    }
}

/// Reads the bytes of one message as text and cuts off trailing white space.
pub fn frame(payload: &[u8]) -> (r: Option<&str>)
    ensures
        r.is_some() == payload_text(payload@).is_some(),
        r matches Some(s) ==> payload_text(payload@) == Some(s@),
{
    match utf8_text(payload) {
        Some(text) => {
            proof {
                encode_utf8_decode_utf8(text@);
            }
            Some(trim_trailing_space(text))
        },
        None => None,
    }
}

} // verus!
