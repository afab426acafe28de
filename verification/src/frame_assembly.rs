//! Reading OCPP-J messages off a raw byte stream through a sans-io WebSocket decoder, as the
//! embedded (`embassy-net`) transport does: socket bytes wait in a buffer until the decoder has
//! consumed them, and a text message split over several frames (or several decoder calls) is
//! put back together before it is handed on.
//!
//! The decoder itself, and the socket, are the caller's; this module decides what each decoded
//! chunk means.

use vstd::prelude::*;

verus! {

/// What the WebSocket decoder found in the bytes it was given.
#[derive(Debug, Clone, Copy, PartialEq, Eq)]
pub enum ChunkKind {
    Text,
    Binary,
    Ping,
    Pong,
    /// The peer started the close handshake.
    CloseMustReply,
    /// The close handshake finished.
    CloseCompleted,
}

/// What one decoded chunk calls for.
#[derive(Debug, Clone, PartialEq, Eq)]
pub enum ChunkOutcome {
    /// A whole text message: its UTF-8 bytes.
    Message(Vec<u8>),
    /// The peer pinged, with this payload.
    Ping(Vec<u8>),
    /// The peer ponged, with this payload.
    Pong(Vec<u8>),
    /// The connection is over: the stream ends here.
    Closed,
    /// Nothing to hand on yet: keep reading.
    Continue,
}

/// The stream half's buffers: socket bytes the decoder has not consumed yet, and the part of a
/// text message assembled so far.
pub struct FrameAssembler {
    pending: Vec<u8>,
    accumulated: Vec<u8>,
}

impl FrameAssembler {
    /// Socket bytes read but not yet consumed by the decoder.
    pub closed spec fn spec_pending(&self) -> Seq<u8> {
        self.pending@
    }

    /// The text message assembled so far.
    pub closed spec fn spec_accumulated(&self) -> Seq<u8> {
        self.accumulated@
    }

    /// Empty buffers, except for `leftover`: bytes that arrived with the end of the opening
    /// handshake and belong to the first frame.
    pub fn new(leftover: Vec<u8>) -> (a: Self)
        ensures
            a.spec_pending() == leftover@,
            a.spec_accumulated() == Seq::<u8>::empty(),
    {
        FrameAssembler { pending: leftover, accumulated: Vec::new() }
    }

    /// Whether the decoder has consumed everything read so far, so the socket must be read.
    pub fn needs_input(&self) -> (b: bool)
        ensures
            b == (self.spec_pending().len() == 0),
    {
        self.pending.len() == 0
    }

    /// The bytes waiting for the decoder.
    pub fn pending(&self) -> (p: &Vec<u8>)
        ensures
            p@ == self.spec_pending(),
    {
        &self.pending
    }

    /// Bytes read off the socket join the end of what waits for the decoder.
    pub fn on_read(&mut self, bytes: &[u8])
        ensures
            final(self).spec_pending() == old(self).spec_pending() + bytes@,
            final(self).spec_accumulated() == old(self).spec_accumulated(),
    {
        let mut i: usize = 0;
        let ghost start = self.pending@;
        let ghost assembled = self.accumulated@;
        while i < bytes.len()
            invariant
                i <= bytes@.len(),
                self.accumulated@ == assembled,
                self.pending@ == start + bytes@.subrange(0, i as int),
            decreases bytes@.len() - i,
        {
            self.pending.push(bytes[i]);
            i = i + 1;
            assert(self.pending@ =~= start + bytes@.subrange(0, i as int));
        }
        assert(bytes@.subrange(0, bytes@.len() as int) =~= bytes@);
    }

    /// The decoder consumed the first `consumed` waiting bytes and produced `chunk`, of kind
    /// `kind`, ending its message or not. A text chunk is added to the message being assembled,
    /// which is handed on whole when this chunk ends it; a binary message is not OCPP-J and is
    /// dropped, with whatever text was assembled; pings and pongs are handed on with their
    /// payload; either close state ends the stream.
    pub fn on_decoded(&mut self, consumed: usize, kind: ChunkKind, chunk: &[u8], end_of_message: bool) -> (o: ChunkOutcome)
        requires
            consumed <= old(self).spec_pending().len(),
        ensures
            final(self).spec_pending() == old(self).spec_pending().subrange(
                consumed as int,
                old(self).spec_pending().len() as int,
            ),
            match kind {
                ChunkKind::Text => if end_of_message {
                    o matches ChunkOutcome::Message(m) && m@ == old(self).spec_accumulated() + chunk@
                        && final(self).spec_accumulated() == Seq::<u8>::empty()
                } else {
                    o == ChunkOutcome::Continue && final(self).spec_accumulated()
                        == old(self).spec_accumulated() + chunk@
                },
                ChunkKind::Binary => o == ChunkOutcome::Continue && final(self).spec_accumulated()
                    == Seq::<u8>::empty(),
                ChunkKind::Ping => o matches ChunkOutcome::Ping(p) && p@ == chunk@
                    && final(self).spec_accumulated() == old(self).spec_accumulated(),
                ChunkKind::Pong => o matches ChunkOutcome::Pong(p) && p@ == chunk@
                    && final(self).spec_accumulated() == old(self).spec_accumulated(),
                ChunkKind::CloseMustReply | ChunkKind::CloseCompleted => o == ChunkOutcome::Closed
                    && final(self).spec_accumulated() == old(self).spec_accumulated(),
            },
    {
        let rest = self.pending.split_off(consumed);
        self.pending = rest;
        match kind {
            ChunkKind::Text => {
                let mut copy = copy_bytes(chunk);
                self.accumulated.append(&mut copy);
                if end_of_message {
                    let message = self.accumulated.split_off(0);
                    ChunkOutcome::Message(message)
                } else {
                    ChunkOutcome::Continue
                }
            },
            ChunkKind::Binary => {
                self.accumulated.clear();
                ChunkOutcome::Continue
            },
            ChunkKind::Ping => ChunkOutcome::Ping(copy_bytes(chunk)),
            ChunkKind::Pong => ChunkOutcome::Pong(copy_bytes(chunk)),
            ChunkKind::CloseMustReply => ChunkOutcome::Closed,
            ChunkKind::CloseCompleted => ChunkOutcome::Closed,
        }
    }
}

/// The bytes of `chunk`, owned.
fn copy_bytes(chunk: &[u8]) -> (v: Vec<u8>)
    ensures
        v@ == chunk@,
{
    let mut v: Vec<u8> = Vec::new();
    let mut i: usize = 0;
    while i < chunk.len()
        invariant
            i <= chunk@.len(),
            v@ == chunk@.subrange(0, i as int),
        decreases chunk@.len() - i,
    {
        v.push(chunk[i]);
        i = i + 1;
        assert(v@ =~= chunk@.subrange(0, i as int));
    }
    assert(chunk@.subrange(0, chunk@.len() as int) =~= chunk@);
    v
}

} // verus!
