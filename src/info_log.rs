//! Reading the info log that GL keeps for a shader or a program.
use vstd::prelude::*;
use vstd::slice::slice_subrange;
use vstd::utf8::{decode_utf8, valid_utf8};

verus! {

/// The text that `String::from_utf8_lossy` makes of `bytes`.
pub uninterp spec fn utf8_lossy(bytes: Seq<u8>) -> Seq<char>;

/// Relies on std's `String::from_utf8_lossy`: decodes UTF-8, putting U+FFFD
/// for each invalid sequence; valid UTF-8 comes back as the text it encodes,
/// and no bytes give the empty string.
#[verifier::external_body]
fn decode_lossy(bytes: &[u8]) -> (r: String)
    ensures
        r@ == utf8_lossy(bytes@),
        valid_utf8(bytes@) ==> r@ == decode_utf8(bytes@),
        bytes@.len() == 0 ==> r@.len() == 0,
{
    String::from_utf8_lossy(bytes).into_owned()
}

/// How many bytes of a log buffer of `available` bytes hold text when the
/// driver reports that it wrote `written` bytes.
pub open spec fn log_text_len(available: nat, written: int) -> nat {
    if written <= 0 {
        0
    } else if written >= available {
        available
    } else {
        written as nat
    }
}

/// The text of a log buffer: the written count is trusted over any length
/// reported before, but never reaches past the buffer.
pub open spec fn log_text(buffer: Seq<u8>, written: int) -> Seq<char> {
    utf8_lossy(buffer.subrange(0, log_text_len(buffer.len(), written) as int))
}

/// Decodes the first `written` bytes of `buffer`, replacing invalid UTF-8.
///
/// A negative count gives the empty string; one past the end of the buffer
/// is cut to the buffer's length.
pub fn info_log_text(buffer: &Vec<u8>, written: i32) -> (r: String)
    ensures
        r@ == log_text(buffer@, written as int),
        ({
            let text = buffer@.subrange(0, log_text_len(buffer@.len(), written as int) as int);
            valid_utf8(text) ==> r@ == decode_utf8(text)
        }),
{
    let n: usize = if written <= 0 {
        0
    } else if written as usize >= buffer.len() {
        buffer.len()
    } else {
        written as usize
    };
    let bytes = slice_subrange(buffer.as_slice(), 0, n);
    decode_lossy(bytes)
}

/// An object whose driver keeps an info log.
pub trait InfoLog {
    /// The log length that the driver reports, terminator included.
    fn get_info_length(&self) -> i32;

    /// Writes the log into the contents of `buffer`, which holds room for
    /// `buffer.capacity()` bytes, and returns the count written.
    fn write_info_log(&self, buffer: &mut Vec<u8>) -> i32;

    /// The log as text: a buffer of the reported length is handed to the
    /// driver, and exactly the bytes it wrote are decoded.
    fn get_info_log(&self) -> (r: String)
        ensures
            exists|buffer: Seq<u8>, written: int| r@ == log_text(buffer, written),
    {
        let reported = self.get_info_length();
        let capacity: usize = if reported < 0 {
            0
        } else {
            reported as usize
        };
        let mut buffer: Vec<u8> = Vec::with_capacity(capacity);
        let written = self.write_info_log(&mut buffer);
        let r = info_log_text(&buffer, written);
        assert(r@ == log_text(buffer@, written as int));
        r
    }
}

} // verus!
