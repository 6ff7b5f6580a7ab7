//! The strings of a dump: a length in bytes, then UTF-16 text, found by its
//! offset from the start of the buffer.

use crate::data::MINIDUMP_STRING;
use crate::error::UserDmpError;
use vstd::prelude::*;
use vstd::string::*;

verus! {

/// The text that a sequence of UTF-16 code units stands for. A code unit that
/// is no surrogate stands for the character of its number. A high surrogate
/// with a low surrogate behind it stands, together with it, for one character
/// beyond U+FFFF. Every other surrogate is replaced by U+FFFD.
pub open spec fn utf16_lossy(units: Seq<u16>) -> Seq<char>
    decreases units.len(),
{
    if units.len() == 0 {
        Seq::empty()
    } else if units[0] < 0xD800 || units[0] > 0xDFFF {
        seq![units[0] as char] + utf16_lossy(units.skip(1))
    } else if units[0] <= 0xDBFF && units.len() >= 2 && 0xDC00 <= units[1] <= 0xDFFF {
        seq![(0x1_0000 + (units[0] - 0xD800) * 0x400 + (units[1] - 0xDC00)) as char] + utf16_lossy(
            units.skip(2),
        )
    } else {
        seq!['\u{FFFD}'] + utf16_lossy(units.skip(1))
    }
}

/// `text` without the NUL characters at its end.
pub open spec fn trim_nuls(text: Seq<char>) -> Seq<char>
    decreases text.len(),
{
    if text.len() > 0 && text.last() == '\0' {
        trim_nuls(text.drop_last())
    } else {
        text
    }
}

/// The string that lies in `bytes` at `at`: its text, decoded and without the
/// NUL characters at its end. An error when the string does not lie inside the
/// buffer.
pub open spec fn string_at(bytes: Seq<u8>, at: int) -> Result<Seq<char>, UserDmpError> {
    if MINIDUMP_STRING::present(bytes, at) {
        Ok(trim_nuls(utf16_lossy(MINIDUMP_STRING::units(bytes, at))))
    } else {
        Err(UserDmpError::AddressNotFound(at as u64))
    }
}

/// Calls `String::from_utf16_lossy` of the standard library. The contract
/// claims what its documentation says: the code units are decoded as UTF-16,
/// and each unpaired surrogate gives one replacement character U+FFFD.
#[verifier::external_body]
fn utf16_to_string(units: &Vec<u16>) -> (text: String)
    ensures
        text@ == utf16_lossy(units@),
{
    String::from_utf16_lossy(units)
}

/// Where the NUL characters at the end of a text start: the text without them
/// is its part before the place `end`, when only NUL characters stand from
/// `end` on and none stands right before it.
proof fn lemma_trim_nuls(text: Seq<char>, end: int)
    requires
        0 <= end <= text.len(),
        forall|k: int| end <= k < text.len() ==> text[k] == '\0',
        end == 0 || text[end - 1] != '\0',
    ensures
        trim_nuls(text) == text.subrange(0, end),
    decreases text.len(),
{
    if end < text.len() {
        lemma_trim_nuls(text.drop_last(), end);
    }
}

/// Removes the NUL characters at the end of `text`.
pub fn trim_trailing_nuls(text: &str) -> (r: String)
    ensures
        r@ == trim_nuls(text@),
{
    let len: usize = text.unicode_len();
    let mut seen: usize = 0;
    let mut end: usize = 0;
    for c in it: text.chars()
        invariant
            it.seq() == text@,
            len == text@.len(),
            seen == it.index(),
            end <= seen <= len,
            forall|k: int| end <= k < seen ==> text@[k] == '\0',
            end == 0 || text@[end - 1] != '\0',
    {
        seen += 1;
        if c != '\0' {
            end = seen;
        }
    }
    proof {
        lemma_trim_nuls(text@, end as int);
    }
    text.substring_char(0, end).to_owned()
}

/// Decodes UTF-16 text and removes the NUL characters at its end.
pub fn decode_text(units: &Vec<u16>) -> (r: String)
    ensures
        r@ == trim_nuls(utf16_lossy(units@)),
{
    let text = utf16_to_string(units);
    trim_trailing_nuls(text.as_str())
}

/// Resolves the string at the offset `rva` of `buf`.
pub fn resolve_string(buf: &[u8], rva: u32) -> (r: Result<String, UserDmpError>)
    ensures
        match r {
            Ok(text) => string_at(buf@, rva as int) == Ok::<Seq<char>, UserDmpError>(text@),
            Err(e) => string_at(buf@, rva as int) == Err::<Seq<char>, UserDmpError>(e),
        },
{
    match MINIDUMP_STRING::read(buf, rva as usize) {
        Ok(string) => Ok(decode_text(&string.Buffer)),
        Err(e) => Err(e),
    }
}

} // verus!
