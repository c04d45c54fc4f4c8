//! Text sent to a printer as raw bytes: encoded in Windows-1252, the ANSI code
//! page that raw printer languages expect.

use vstd::prelude::*;
use vstd::string::*;

use crate::error::{ErrorView, PrinterError, fails_with};

verus! {

/// What `encoding_rs::WINDOWS_1252.encode` gives for a string: the encoded
/// bytes, and whether unmappable characters were replaced by numeric
/// character references.
pub uninterp spec fn windows_1252_encoding(s: Seq<char>) -> (Seq<u8>, bool);

/// The longest non-ASCII text, in UTF-8 bytes, that is encoded for printing:
/// a twentieth of the address space, short enough that the buffer sizes the
/// encoder computes (about nine bytes for each byte of text, with numeric
/// character references, rounded up to powers of two) stay within `usize`.
/// ASCII text is returned as it is, with no buffer to size.
pub const MAX_PAYLOAD_TEXT: usize = usize::MAX / 20;

/// The Windows-1252 byte of a character, or `None` where it has none: ASCII
/// and U+00A0 to U+00FF are their own bytes, and 32 characters have the bytes
/// 0x80 to 0x9F (five of them the C1 controls of the same number).
pub open spec fn windows_1252_byte(c: char) -> Option<u8> {
    let v = c as u32;
    if v < 0x80 || (0xA0 <= v && v <= 0xFF) {
        Some(v as u8)
    } else {
        match v {
        0x20AC => Some(0x80u8),
        0x0081 => Some(0x81u8),
        0x201A => Some(0x82u8),
        0x0192 => Some(0x83u8),
        0x201E => Some(0x84u8),
        0x2026 => Some(0x85u8),
        0x2020 => Some(0x86u8),
        0x2021 => Some(0x87u8),
        0x02C6 => Some(0x88u8),
        0x2030 => Some(0x89u8),
        0x0160 => Some(0x8Au8),
        0x2039 => Some(0x8Bu8),
        0x0152 => Some(0x8Cu8),
        0x008D => Some(0x8Du8),
        0x017D => Some(0x8Eu8),
        0x008F => Some(0x8Fu8),
        0x0090 => Some(0x90u8),
        0x2018 => Some(0x91u8),
        0x2019 => Some(0x92u8),
        0x201C => Some(0x93u8),
        0x201D => Some(0x94u8),
        0x2022 => Some(0x95u8),
        0x2013 => Some(0x96u8),
        0x2014 => Some(0x97u8),
        0x02DC => Some(0x98u8),
        0x2122 => Some(0x99u8),
        0x0161 => Some(0x9Au8),
        0x203A => Some(0x9Bu8),
        0x0153 => Some(0x9Cu8),
        0x009D => Some(0x9Du8),
        0x017E => Some(0x9Eu8),
        0x0178 => Some(0x9Fu8),
            _ => None,
        }
    }
}

/// Whether every character of `s` has a Windows-1252 byte.
pub open spec fn encodable(s: Seq<char>) -> bool {
    forall|i: int| 0 <= i < s.len() ==> (#[trigger] windows_1252_byte(s[i])) is Some
}

/// The Windows-1252 bytes of an encodable string, one for each character.
pub open spec fn windows_1252_bytes(s: Seq<char>) -> Seq<u8> {
    s.map_values(|c: char| windows_1252_byte(c)->0)
}

/// The bytes of an ASCII string: each character's code.
pub open spec fn ascii_bytes(s: Seq<char>) -> Seq<u8> {
    s.map_values(|c: char| c as u8)
}

/// Whether `s` may be encoded: ASCII text of any length, other text up to
/// `MAX_PAYLOAD_TEXT` bytes.
pub open spec fn encoding_fits(s: &str) -> bool {
    vstd::utf8::is_ascii_chars(s@) || s.spec_bytes().len() <= MAX_PAYLOAD_TEXT
}

/// `encoding_rs::WINDOWS_1252.encode(s)`, keeping the bytes and the flag of
/// unmappable characters (the encoding it names is always Windows-1252).
/// The contract names the result and states what the crate's source shows of
/// it (the single-byte encoder and the `windows_1252` table in `data.rs`): the
/// flag is set exactly where a character has no Windows-1252 byte, and where
/// it is not set the bytes are the characters' bytes, one each. Where the flag
/// is set the bytes (with numeric character references) are left unsaid. The
/// buffer sizes it computes overflow `usize` (and it panics) only for non-ASCII
/// text beyond `MAX_PAYLOAD_TEXT` bytes, which `requires` leaves out.
#[verifier::external_body]
fn encode_windows_1252(s: &str) -> (res: (Vec<u8>, bool))
    requires
        encoding_fits(s),
    ensures
        (res.0@, res.1) == windows_1252_encoding(s@),
        res.1 == !encodable(s@),
        !res.1 ==> res.0@ == windows_1252_bytes(s@),
{
    let (bytes, _, had_errors) = encoding_rs::WINDOWS_1252.encode(s);
    (bytes.into_owned(), had_errors)
}

/// ASCII text is encodable, as its own bytes.
proof fn lemma_ascii_encodable(s: Seq<char>)
    requires
        vstd::utf8::is_ascii_chars(s),
    ensures
        encodable(s),
        windows_1252_bytes(s) == ascii_bytes(s),
{
    assert forall|i: int| 0 <= i < s.len() implies (#[trigger] windows_1252_byte(s[i])) is Some
        && windows_1252_byte(s[i])->0 == s[i] as u8 by {
        vstd::utf8::char_is_scalar(s[i]);
        assert('\0' <= s[i] <= '\u{7f}');
        assert((s[i] as u32) < 0x80);
    }
    assert(windows_1252_bytes(s) =~= ascii_bytes(s));
}

/// Accepts an encoding of a string to print: refused with `EncodingError`
/// where characters were unmappable.
pub fn accept_encoding(bytes: Vec<u8>, had_unmappable: bool) -> (res: Result<Vec<u8>, PrinterError>)
    ensures
        had_unmappable ==> fails_with(res, ErrorView::EncodingError),
        !had_unmappable ==> res == Ok::<Vec<u8>, PrinterError>(bytes),
{
    if had_unmappable {
        Err(PrinterError::EncodingError)
    } else {
        Ok(bytes)
    }
}

/// The bytes that a string is printed as: refused where it is empty, then
/// encoded in Windows-1252 and refused where a character has no byte there.
pub fn string_payload(s: &str) -> (res: Result<Vec<u8>, PrinterError>)
    requires
        encoding_fits(s),
    ensures
        s@.len() == 0 ==> fails_with(res, ErrorView::InvalidParam("打印字符串不能为空"@)),
        s@.len() > 0 && !encodable(s@) ==> fails_with(res, ErrorView::EncodingError),
        s@.len() > 0 && encodable(s@) ==> (res matches Ok(b) && b@ == windows_1252_bytes(s@)),
        res matches Ok(b) ==> b@.len() == s@.len() && b@.len() > 0,
        s@.len() > 0 && vstd::utf8::is_ascii_chars(s@) ==> (res matches Ok(b) && b@ == ascii_bytes(
            s@,
        )),
{
    proof {
        if vstd::utf8::is_ascii_chars(s@) {
            lemma_ascii_encodable(s@);
        }
    }
    if s.is_empty() {
        return Err(PrinterError::InvalidParam(String::from_str("打印字符串不能为空")));
    }
    let (bytes, had_unmappable) = encode_windows_1252(s);
    accept_encoding(bytes, had_unmappable)
}

} // verus!
