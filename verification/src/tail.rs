//! Taking the tail of a large text, for log viewing.
//!
//! A log file is read whole but only its end is shown.  `tail_start` is the
//! offset arithmetic for reading the last stretch of a file; `text_tail`
//! keeps the last characters of a text already in memory, counting
//! characters rather than bytes so that the cut can never land inside a
//! multi-byte encoding.

use vstd::prelude::*;

verus! {

/// The offset at which the last `keep` units of a length-`len` resource
/// start: zero when the resource is no longer than what is kept.
pub fn tail_start(len: u64, keep: u64) -> (r: u64)
    ensures
        len > keep ==> r == len - keep,
        len <= keep ==> r == 0,
{
    if len > keep {
        len - keep
    } else {
        0
    }
}

/// The last at-most-`keep` characters of the text: the whole text when it
/// is short enough, its final `keep` characters otherwise.
pub fn text_tail(content: &str, keep: usize) -> (t: String)
    ensures
        content@.len() <= keep ==> t@ == content@,
        content@.len() > keep ==> t@ == content@.subrange(
            content@.len() - keep,
            content@.len() as int,
        ),
{
    let n = content.unicode_len();
    if n <= keep {
        content.to_owned()
    } else {
        content.substring_char(n - keep, n).to_owned()
    }
}

} // verus!
