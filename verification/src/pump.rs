//! The reader pump's per-read decision.
//!
//! One pump runs per session, draining the session's output handle.  Each
//! iteration reads a bounded chunk and decides: publish decoded text and
//! read on, read on quietly while a character is still in flight, or stop
//! because the stream ended or failed.  The decision and the decoding are
//! here; the loop around them — a dedicated thread per session — and the
//! delivery of published text to the event sink belong to the host.  A
//! pump that stops must ask the registry to reclaim its session, so a
//! shell that exits on its own does not linger as a phantom entry.

use vstd::prelude::*;
use vstd::utf8::{decode_utf8, valid_utf8};

use crate::boundaries::{lemma_chunks_decode_in_order, split_point};
use crate::decode::{lossy_decode, lossy_text, OutputDecoder};
use crate::errors::IoError;
use crate::pty::{read_chunk, ReaderHandle};

verus! {

/// What the reader pump does after one read from a session's output
/// handle.
#[derive(Debug)]
pub enum PumpAction {
    /// Publish this text to the event sink, tagged with the session's id,
    /// then read again.
    Publish(String),
    /// Nothing decodable yet — the bytes read are the start of a character
    /// still in flight; read again.
    Continue,
    /// The stream has ended or failed.  Publish this text when it is not
    /// empty — bytes carried over that no further read can complete — then
    /// stop reading, publish nothing more for this session, and ask the
    /// registry to reclaim it.
    Stop(String),
}

/// The bytes one pump step emits for decoding: the decodable prefix of the
/// carried bytes followed by the new chunk.
pub open spec fn step_emitted(pending: Seq<u8>, chunk: Seq<u8>) -> Seq<u8> {
    (pending + chunk).subrange(0, split_point(pending + chunk))
}

/// The bytes one pump step carries into the next read.
pub open spec fn step_carry(pending: Seq<u8>, chunk: Seq<u8>) -> Seq<u8> {
    (pending + chunk).subrange(split_point(pending + chunk), (pending + chunk).len() as int)
}

/// One pump step neither loses nor reorders output: the bytes it emits for
/// decoding, followed by the bytes it carries into the next read, are
/// exactly the bytes carried before followed by the bytes just read.
pub proof fn lemma_pump_preserves_stream(pending: Seq<u8>, chunk: Seq<u8>)
    ensures
        step_emitted(pending, chunk) + step_carry(pending, chunk) == pending + chunk,
{
    crate::boundaries::lemma_split_point_bounds(pending + chunk);
    assert(step_emitted(pending, chunk) + step_carry(pending, chunk) =~= pending + chunk);
}

/// Output that is valid UTF-8 is decoded exactly, however it is chopped
/// into reads: for a fresh pump fed two chunks, the pieces emitted after
/// each read and the final carry are each valid UTF-8, and their decodings
/// concatenate to the decoding of the whole stream — in read order, with
/// nothing lost, even when a character straddles the two reads.
pub proof fn lemma_reads_decode_in_order(c1: Seq<u8>, c2: Seq<u8>)
    requires
        valid_utf8(c1 + c2),
    ensures
        ({
            let e1 = step_emitted(Seq::<u8>::empty(), c1);
            let p1 = step_carry(Seq::<u8>::empty(), c1);
            let e2 = step_emitted(p1, c2);
            let p2 = step_carry(p1, c2);
            &&& valid_utf8(e1)
            &&& valid_utf8(e2)
            &&& valid_utf8(p2)
            &&& decode_utf8(e1) + decode_utf8(e2) + decode_utf8(p2) == decode_utf8(c1 + c2)
        }),
{
    assert(Seq::<u8>::empty() + c1 =~= c1);
    lemma_chunks_decode_in_order(c1, c2);
    assert(step_emitted(Seq::<u8>::empty(), c1) =~= c1.subrange(0, split_point(c1)));
    assert(step_carry(Seq::<u8>::empty(), c1) =~= c1.subrange(split_point(c1), c1.len() as int));
}

/// Decides one pump iteration from the outcome of a read.  A failed read
/// or an end of stream yields `Stop`, carrying whatever text the carry
/// buffer still held; a non-empty read yields the decoded text to publish,
/// or `Continue` when every byte must wait for its continuation.  Output
/// is decoded in read order and no byte is dropped while the stream lives.
pub fn pump_step(dec: &mut OutputDecoder, outcome: Result<Vec<u8>, IoError>) -> (a: PumpAction)
    ensures
        match outcome {
            Ok(chunk) => {
                if chunk@.len() == 0 {
                    &&& a matches PumpAction::Stop(s) && s@ == lossy_text(old(dec)@)
                    &&& final(dec)@ == Seq::<u8>::empty()
                } else {
                    &&& final(dec)@ == step_carry(old(dec)@, chunk@)
                    &&& final(dec)@.len() <= 3
                    &&& step_emitted(old(dec)@, chunk@).len() == 0 ==> a == PumpAction::Continue
                    &&& step_emitted(old(dec)@, chunk@).len() > 0 ==> (a matches
                        PumpAction::Publish(s) && s@ == lossy_text(step_emitted(old(dec)@, chunk@)))
                }
            },
            Err(_) => {
                &&& a matches PumpAction::Stop(s) && s@ == lossy_text(old(dec)@)
                &&& final(dec)@ == Seq::<u8>::empty()
            },
        },
{
    match outcome {
        Ok(chunk) => {
            if chunk.len() == 0 {
                let rest = dec.flush();
                PumpAction::Stop(lossy_decode(rest.as_slice()))
            } else {
                let complete = dec.absorb(chunk.as_slice());
                if complete.len() == 0 {
                    PumpAction::Continue
                } else {
                    PumpAction::Publish(lossy_decode(complete.as_slice()))
                }
            }
        },
        Err(_) => {
            let rest = dec.flush();
            PumpAction::Stop(lossy_decode(rest.as_slice()))
        },
    }
}

/// One session's reader pump: the id its events are tagged with, the read
/// handle it drains, and its decode carry.  The host runs one of these per
/// session on a thread of its own, publishing each yielded text under
/// [`ReaderPump::session_id`] and stopping — with a request to the registry
/// to reclaim the session — when a step says so.
pub struct ReaderPump {
    id: String,
    reader: ReaderHandle,
    dec: OutputDecoder,
}

impl ReaderPump {
    /// The id every event of this pump is tagged with.
    pub closed spec fn id_view(&self) -> Seq<char> {
        self.id@
    }

    /// The bytes carried between reads.
    pub closed spec fn carry(&self) -> Seq<u8> {
        self.dec@
    }

    /// A pump for the session `id`, draining the read handle its creation
    /// returned; started right after the session is registered.
    pub fn new(id: String, reader: ReaderHandle) -> (p: ReaderPump)
        ensures
            p.id_view() == id@,
            p.carry() == Seq::<u8>::empty(),
    {
        ReaderPump { id, reader, dec: OutputDecoder::new() }
    }

    /// The id to tag published output with.  It never changes over the
    /// pump's life: every event this pump yields is for its own session.
    pub fn session_id(&self) -> (r: &String)
        ensures
            r@ == self.id_view(),
    {
        &self.id
    }

    /// One blocking read from this session's output handle, and the
    /// decision on its outcome.  The pump's id is untouched, the carry
    /// afterwards holds at most the start of one character, and a stopped
    /// pump carries nothing.
    pub fn step(&mut self) -> (a: PumpAction)
        ensures
            final(self).id_view() == old(self).id_view(),
            final(self).carry().len() <= 3,
            a matches PumpAction::Stop(_) ==> final(self).carry() == Seq::<u8>::empty(),
    {
        let outcome = read_chunk(&mut self.reader);
        pump_step(&mut self.dec, outcome)
    }
}

} // verus!
