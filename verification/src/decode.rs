//! Best-effort text decoding of raw terminal output.
//!
//! Each chunk read from a session's output handle is appended to a small
//! carry buffer; the buffer is then cut at the point
//! [`split_point`](crate::boundaries::split_point) names, the complete part
//! is decoded to text, and at most three trailing bytes — the start of a
//! character whose continuation bytes are still in flight — are carried
//! into the next read.  Decoding is lossy, as the stream may hold bytes
//! that are not text at all; the carry guarantees that a character split
//! across reads is never mangled.

use vstd::prelude::*;
use vstd::utf8::{decode_utf8, valid_utf8};

use crate::boundaries::{lead_width, lemma_split_point_bounds, split_point};

verus! {

/// What `String::from_utf8_lossy` makes of a byte sequence: the decoded
/// characters, with each ill-formed stretch replaced.  The result depends
/// on the bytes alone.
pub uninterp spec fn lossy_text(bytes: Seq<u8>) -> Seq<char>;

/// Relies on `String::from_utf8_lossy`: the result is a function of the
/// bytes alone, and bytes that are valid UTF-8 decode to exactly the
/// characters they encode.
#[verifier::external_body]
pub fn lossy_decode(bytes: &[u8]) -> (s: String)
    ensures
        s@ == lossy_text(bytes@),
        valid_utf8(bytes@) ==> s@ == decode_utf8(bytes@),
{
    String::from_utf8_lossy(bytes).into_owned()
}

/// Whether the byte has the form of a UTF-8 continuation byte.
fn byte_is_continuation(b: u8) -> (r: bool)
    ensures
        r == vstd::utf8::is_continuation_byte(b),
{
    0x80 <= b && b <= 0xbf
}

/// The width the byte announces as a UTF-8 leading byte, or zero.
fn byte_lead_width(b: u8) -> (w: usize)
    ensures
        w as int == lead_width(b),
{
    if b <= 0x7f {
        1
    } else if 0xc0 <= b && b <= 0xdf {
        2
    } else if 0xe0 <= b && b <= 0xef {
        3
    } else if 0xf0 <= b && b <= 0xf7 {
        4
    } else {
        0
    }
}

/// The index where the buffer's possibly incomplete trailing character
/// encoding starts.
fn find_split(buf: &Vec<u8>) -> (k: usize)
    ensures
        k as int == split_point(buf@),
        k <= buf.len(),
{
    proof {
        lemma_split_point_bounds(buf@);
    }
    let n = buf.len();
    if n > 0 && !byte_is_continuation(buf[n - 1]) {
        if byte_lead_width(buf[n - 1]) >= 2 {
            n - 1
        } else {
            n
        }
    } else if n > 1 && !byte_is_continuation(buf[n - 2]) {
        if byte_lead_width(buf[n - 2]) >= 3 {
            n - 2
        } else {
            n
        }
    } else if n > 2 && !byte_is_continuation(buf[n - 3]) {
        if byte_lead_width(buf[n - 3]) >= 4 {
            n - 3
        } else {
            n
        }
    } else {
        n
    }
}

/// Carry buffer for one session's output stream.  It holds the bytes read
/// so far that could not yet be decoded: always the possibly incomplete
/// trailing character encoding of the stream, never more than three bytes
/// once a chunk has passed through [`OutputDecoder::absorb`].
pub struct OutputDecoder {
    pending: Vec<u8>,
}

impl View for OutputDecoder {
    type V = Seq<u8>;

    closed spec fn view(&self) -> Seq<u8> {
        self.pending@
    }
}

impl OutputDecoder {
    /// A decoder with nothing carried over.
    pub fn new() -> (d: OutputDecoder)
        ensures
            d@ == Seq::<u8>::empty(),
    {
        OutputDecoder { pending: Vec::new() }
    }

    /// Takes in one chunk of raw bytes and hands back the longest prefix of
    /// the carried-plus-new bytes that is safe to decode now; the rest — at
    /// most three bytes, the start of a character still in flight — stays
    /// carried.  No byte is lost or reordered.
    pub fn absorb(&mut self, chunk: &[u8]) -> (complete: Vec<u8>)
        ensures
            complete@ + final(self)@ == old(self)@ + chunk@,
            complete@ == (old(self)@ + chunk@).subrange(
                0,
                split_point(old(self)@ + chunk@),
            ),
            final(self)@ == (old(self)@ + chunk@).subrange(
                split_point(old(self)@ + chunk@),
                old(self)@.len() + chunk@.len() as int,
            ),
            final(self)@.len() <= 3,
    {
        self.pending.extend_from_slice(chunk);
        let k = find_split(&self.pending);
        proof {
            lemma_split_point_bounds(self.pending@);
        }
        let mut complete = self.pending.split_off(k);
        core::mem::swap(&mut complete, &mut self.pending);
        proof {
            let whole = old(self)@ + chunk@;
            assert(complete@ =~= whole.subrange(0, split_point(whole)));
            assert(self@ =~= whole.subrange(split_point(whole), whole.len() as int));
            assert(complete@ + self@ =~= whole);
        }
        complete
    }

    /// Gives up whatever is still carried — used when the stream ends, so
    /// that trailing bytes that never completed a character are still
    /// delivered rather than dropped.
    pub fn flush(&mut self) -> (rest: Vec<u8>)
        ensures
            rest@ == old(self)@,
            final(self)@ == Seq::<u8>::empty(),
    {
        let mut rest = Vec::new();
        core::mem::swap(&mut rest, &mut self.pending);
        rest
    }
}

} // verus!
