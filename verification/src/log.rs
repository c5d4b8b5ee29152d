//! Reading a diagnostic log from the device: the buffer that is offered to
//! it, and the text that is made of what it wrote.

use vstd::prelude::*;

verus! {

/// The text that `String::from_utf8_lossy` makes of bytes.
pub uninterp spec fn utf8_lossy(bytes: Seq<u8>) -> Seq<char>;

/// `String::from_utf8_lossy` of std, made an owned string.
///
/// The text is a function of the bytes alone. Of bytes that are valid UTF-8
/// it is the text that they encode; in other bytes every ill-formed sequence
/// becomes a replacement character, which is not written out here.
#[verifier::external_body]
fn string_from_utf8_lossy(bytes: &Vec<u8>) -> (text: String)
    ensures
        text@ == utf8_lossy(bytes@),
        vstd::utf8::valid_utf8(bytes@) ==> text@ == vstd::utf8::decode_utf8(bytes@),
{
    String::from_utf8_lossy(bytes.as_slice()).into_owned()
}

/// A buffer of `len` spaces, for the device to write a log of that length
/// over.
pub fn create_empty_vec_cstr(len: usize) -> (buffer: Vec<u8>)
    ensures
        buffer@ == Seq::new(len as nat, |i: int| 0x20u8),
{
    let mut buffer: Vec<u8> = Vec::new();
    let mut i: usize = 0;
    while i < len
        invariant
            i <= len,
            buffer@ == Seq::new(i as nat, |j: int| 0x20u8),
        decreases len - i,
    {
        buffer.push(0x20u8);
        i += 1;
    }
    buffer
}

/// The bytes of a log without its terminator: one zero byte at the end is
/// dropped, if there is one.
pub open spec fn without_terminator(raw: Seq<u8>) -> Seq<u8> {
    if raw.len() > 0 && raw.last() == 0 {
        raw.drop_last()
    } else {
        raw
    }
}

/// The text of a log that the device wrote as `raw`.
pub open spec fn log_text(raw: Seq<u8>) -> Seq<char> {
    utf8_lossy(without_terminator(raw))
}

/// The text of a log that the device wrote as `raw`: one zero byte at the
/// end is dropped, and the rest is read as UTF-8.
pub fn create_str_from_raw_cstr(raw: Vec<u8>) -> (text: String)
    ensures
        text@ == log_text(raw@),
{
    let mut raw = raw;
    let n = raw.len();
    if n > 0 && raw[n - 1] == 0 {
        raw.pop();
    }
    string_from_utf8_lossy(&raw)
}

} // verus!
