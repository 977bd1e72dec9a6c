//! Output of a child process turned into progress events.
use vstd::prelude::*;
use vstd::utf8::{decode_utf8, valid_utf8};

use crate::text::{chars_of, contains, find_in};

verus! {

/// What `str::to_lowercase` makes of a text.
pub uninterp spec fn lower_of(s: Seq<char>) -> Seq<char>;

/// Relies on `str::to_lowercase`: the lower-case form, which depends on the
/// characters alone.
#[verifier::external_body]
fn lowercase(s: &str) -> (r: String)
    ensures
        r@ == lower_of(s@),
{
    s.to_lowercase()
}

/// What `String::from_utf8_lossy` makes of bytes.
pub uninterp spec fn lossy_of(b: Seq<u8>) -> Seq<char>;

/// Relies on `String::from_utf8_lossy`: the text of the bytes, with each
/// invalid sequence replaced by U+FFFD; valid UTF-8 is decoded as it is.
#[verifier::external_body]
fn lossy_text(bytes: &Vec<u8>) -> (r: String)
    ensures
        r@ == lossy_of(bytes@),
        valid_utf8(bytes@) ==> r@ == decode_utf8(bytes@),
{
    String::from_utf8_lossy(bytes).into_owned()
}

/// Whether lower-case text reports a failure: it holds "error" or "failed".
pub open spec fn reads_as_failure(lowered: Seq<char>) -> bool {
    contains(lowered, seq!['e', 'r', 'r', 'o', 'r']) || contains(
        lowered,
        seq!['f', 'a', 'i', 'l', 'e', 'd'],
    )
}

/// Whether text reports a failure, whatever its letter case.
pub open spec fn is_error_like_spec(text: Seq<char>) -> bool {
    reads_as_failure(lower_of(text))
}

/// Which output stream of a child process a chunk came from.
#[derive(Clone, Copy, PartialEq, Eq, Structural, Debug)]
pub enum OutputStream {
    Stdout,
    Stderr,
}

/// One chunk of a child's output, as delivered to a listener. Error-like
/// chunks go out on a channel of their own, whichever stream they came from.
pub struct OutputLine {
    pub stream: OutputStream,
    pub error_like: bool,
    pub text: String,
}

/// Whether already lower-cased text reports a failure.
pub fn mentions_failure(lowered: &str) -> (r: bool)
    ensures
        r == reads_as_failure(lowered@),
{
    let s = chars_of(lowered);
    let error = vec!['e', 'r', 'r', 'o', 'r'];
    let failed = vec!['f', 'a', 'i', 'l', 'e', 'd'];
    find_in(&s, &error) || find_in(&s, &failed)
}

/// Whether output text reports a failure: its lower-case form holds "error"
/// or "failed".
pub fn is_error_like(text: &str) -> (r: bool)
    ensures
        r == is_error_like_spec(text@),
{
    let lowered = lowercase(text);
    mentions_failure(lowered.as_str())
}

/// The output line for a chunk of bytes from `stream`. Every chunk gives
/// one; bytes that are not valid UTF-8 are replaced, not dropped.
pub fn classify_chunk(stream: OutputStream, bytes: &Vec<u8>) -> (line: OutputLine)
    ensures
        line.stream == stream,
        line.text@ == lossy_of(bytes@),
        valid_utf8(bytes@) ==> line.text@ == decode_utf8(bytes@),
        line.error_like == is_error_like_spec(line.text@),
{
    let text = lossy_text(bytes);
    let error_like = is_error_like(text.as_str());
    OutputLine { stream, error_like, text }
}

} // verus!
