//! Where a byte stream may be cut for decoding.
//!
//! Output read from a pseudo-terminal arrives in arbitrary chunks, and a
//! multi-byte UTF-8 character can straddle a chunk boundary.  This module
//! locates, at the tail of a buffered byte sequence, the start of a
//! possibly incomplete character encoding: everything before that point can
//! be decoded now, everything from it on must wait for the next read.  The
//! central result is that for a valid UTF-8 stream the cut always falls on
//! a character boundary of the whole stream, however the stream was chopped
//! into chunks.

use vstd::prelude::*;
use vstd::utf8::{
    decode_utf8, decode_utf8_split, is_char_boundary, is_char_boundary_iff_not_is_continuation_byte,
    is_continuation_byte, is_leading_byte_width_1, is_leading_byte_width_2,
    is_leading_byte_width_3, is_leading_byte_width_4, length_of_first_scalar, pop_first_scalar,
    valid_utf8, valid_utf8_split,
};

verus! {

/// Number of bytes in the UTF-8 character encoding opened by the given
/// leading byte, or zero when the byte cannot open an encoding (a
/// continuation byte, or a value no encoding uses).
pub open spec fn lead_width(b: u8) -> int {
    if is_leading_byte_width_1(b) {
        1
    } else if is_leading_byte_width_2(b) {
        2
    } else if is_leading_byte_width_3(b) {
        3
    } else if is_leading_byte_width_4(b) {
        4
    } else {
        0
    }
}

/// The index at which the possibly incomplete trailing character encoding
/// of the byte sequence starts.  A leading byte within the last three
/// positions that announces more bytes than remain marks the cut; when the
/// sequence instead ends at an encoding boundary — or ends in bytes that no
/// later read could complete — the cut is the length itself.
pub open spec fn split_point(bytes: Seq<u8>) -> int {
    let n = bytes.len() as int;
    if n > 0 && !is_continuation_byte(bytes[n - 1]) {
        if lead_width(bytes[n - 1]) >= 2 {
            n - 1
        } else {
            n
        }
    } else if n > 1 && !is_continuation_byte(bytes[n - 2]) {
        if lead_width(bytes[n - 2]) >= 3 {
            n - 2
        } else {
            n
        }
    } else if n > 2 && !is_continuation_byte(bytes[n - 3]) {
        if lead_width(bytes[n - 3]) >= 4 {
            n - 3
        } else {
            n
        }
    } else {
        n
    }
}

/// The cut leaves at most three bytes behind, and when it falls short of
/// the end it names a leading byte followed only by continuation bytes.
pub proof fn lemma_split_point_bounds(bytes: Seq<u8>)
    ensures
        bytes.len() - 3 <= split_point(bytes) <= bytes.len(),
        0 <= split_point(bytes),
        split_point(bytes) < bytes.len() ==> {
            let s = split_point(bytes);
            &&& !is_continuation_byte(bytes[s])
            &&& lead_width(bytes[s]) > bytes.len() - s
            &&& forall|j: int| s < j < bytes.len() ==> is_continuation_byte(bytes[j])
        },
{
}

/// The cut is determined by its shape: a leading byte within the last three
/// positions, followed only by continuation bytes, that announces more
/// bytes than remain, is where the sequence splits.
proof fn lemma_split_point_determined(bytes: Seq<u8>, s: int)
    requires
        bytes.len() - 3 <= s < bytes.len(),
        0 <= s,
        !is_continuation_byte(bytes[s]),
        lead_width(bytes[s]) > bytes.len() - s,
        forall|j: int| s < j < bytes.len() ==> is_continuation_byte(bytes[j]),
    ensures
        split_point(bytes) == s,
{
}

/// True when the character encoding starting at `s` strictly covers
/// position `k`: a leading byte stands at `s`, announces an encoding that
/// reaches past `k`, and only continuation bytes lie between.
pub open spec fn encoding_covers(w: Seq<u8>, s: int, k: int) -> bool {
    &&& 0 <= s < k
    &&& !is_continuation_byte(w[s])
    &&& k < s + lead_width(w[s])
    &&& forall|j: int| s < j < k ==> is_continuation_byte(w[j])
}

/// In a valid UTF-8 sequence, every position is either a character boundary
/// or strictly inside the encoding of a single character.
proof fn lemma_boundary_or_covered(w: Seq<u8>, k: int)
    requires
        valid_utf8(w),
        0 < k <= w.len(),
        !is_char_boundary(w, k),
    ensures
        exists|s: int| #[trigger] encoding_covers(w, s, k),
    decreases w.len(),
{
    let width = length_of_first_scalar(w);
    assert(1 <= width <= w.len());
    if k < width {
        assert(encoding_covers(w, 0, k)) by {
            assert(lead_width(w[0]) == width);
        }
    } else {
        let rest = pop_first_scalar(w);
        assert(rest =~= w.subrange(width, w.len() as int));
        if k == width {
            assert(is_char_boundary(rest, 0));
            assert(is_char_boundary(w, k));
        } else {
            lemma_boundary_or_covered(rest, k - width);
            let s = choose|s: int| #[trigger] encoding_covers(rest, s, k - width);
            assert(rest[s] == w[s + width]);
            assert forall|j: int| s + width < j < k implies is_continuation_byte(
                #[trigger] w[j],
            ) by {
                assert(rest[j - width] == w[j]);
            }
            assert(encoding_covers(w, s + width, k));
        }
    }
}

/// However a valid UTF-8 stream is chopped into a first chunk and a rest,
/// the cut computed from the first chunk alone is a character boundary of
/// the whole stream.
pub proof fn lemma_split_point_is_boundary(b1: Seq<u8>, b2: Seq<u8>)
    requires
        valid_utf8(b1 + b2),
    ensures
        0 <= split_point(b1) <= b1.len(),
        is_char_boundary(b1 + b2, split_point(b1)),
{
    let w = b1 + b2;
    let n = b1.len() as int;
    let k = split_point(b1);
    lemma_split_point_bounds(b1);
    if k < n {
        assert(w[k] == b1[k]);
        is_char_boundary_iff_not_is_continuation_byte(w, k);
    } else {
        if n == 0 {
            assert(is_char_boundary(w, 0));
        } else if w.len() == n {
            vstd::utf8::is_char_boundary_start_end_of_seq(w);
            assert(w =~= b1);
        } else if !is_char_boundary(w, n) {
            lemma_boundary_or_covered(w, n);
            let s = choose|s: int| #[trigger] encoding_covers(w, s, n);
            assert(n < s + lead_width(w[s]));
            assert(lead_width(w[s]) <= 4);
            assert(b1[s] == w[s]);
            assert forall|j: int| s < j < n implies is_continuation_byte(#[trigger] b1[j]) by {
                assert(b1[j] == w[j]);
            }
            lemma_split_point_determined(b1, s);
            assert(false);
        }
    }
}

/// Cutting a valid stream after its first chunk, and again after its
/// second, yields three valid pieces whose decodings concatenate to the
/// decoding of the whole stream: output split across reads is decoded
/// exactly as if it had arrived in one piece.
pub proof fn lemma_chunks_decode_in_order(b1: Seq<u8>, b2: Seq<u8>)
    requires
        valid_utf8(b1 + b2),
    ensures
        ({
            let k1 = split_point(b1);
            let e1 = b1.subrange(0, k1);
            let m = b1.subrange(k1, b1.len() as int) + b2;
            let k2 = split_point(m);
            let e2 = m.subrange(0, k2);
            let r2 = m.subrange(k2, m.len() as int);
            &&& valid_utf8(e1)
            &&& valid_utf8(e2)
            &&& valid_utf8(r2)
            &&& decode_utf8(b1 + b2) == decode_utf8(e1) + decode_utf8(e2) + decode_utf8(r2)
        }),
{
    let w = b1 + b2;
    let k1 = split_point(b1);
    let e1 = b1.subrange(0, k1);
    let m = b1.subrange(k1, b1.len() as int) + b2;
    lemma_split_point_is_boundary(b1, b2);
    valid_utf8_split(w, k1);
    decode_utf8_split(w, k1);
    assert(w.subrange(0, k1) =~= e1);
    assert(w.subrange(k1, w.len() as int) =~= m);
    let k2 = split_point(m);
    let e2 = m.subrange(0, k2);
    let r2 = m.subrange(k2, m.len() as int);
    assert(m + Seq::<u8>::empty() =~= m);
    lemma_split_point_is_boundary(m, Seq::<u8>::empty());
    assert(is_char_boundary(m, k2));
    valid_utf8_split(m, k2);
    decode_utf8_split(m, k2);
    assert(decode_utf8(w) == decode_utf8(e1) + (decode_utf8(e2) + decode_utf8(r2)));
    assert(decode_utf8(e1) + (decode_utf8(e2) + decode_utf8(r2)) == decode_utf8(e1) + decode_utf8(
        e2,
    ) + decode_utf8(r2));
}

} // verus!
