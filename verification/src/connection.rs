//! The client's side of one bidirectional stream: the bytes that have
//! arrived and were not yet decoded, and the incremental decoder over them.

use crate::buffer::buffered;
use crate::error::ProtocolError;
use crate::error::TransportError;
use crate::frame::frame_ready;
use crate::frame::frame_size;
use crate::frame::is_frame;
use crate::frame::malformed;
use crate::frame::parse_header;
use crate::message::backend_message;
use crate::message::open_message;
use crate::message::parse_frame;
use crate::message::Message;
use bytes::BytesMut;
use vstd::prelude::*;

verus! {

/// The pending bytes of a stream, in arrival order.
pub struct Connection {
    pending: BytesMut,
}

/// What the transport delivered since the decoder was last driven.
#[derive(Debug, Clone, PartialEq, Eq)]
pub enum Delivery {
    /// Nothing new: decode from what is pending.
    Nothing,
    /// The next chunk of the stream.
    Chunk(Vec<u8>),
    /// The stream has ended.
    End,
}

impl Delivery {
    /// The delivery of a chunk for which the transport reported a length.
    /// The chunk is taken by its own length; a report that differs is a
    /// transport error.
    pub fn chunk(bytes: Vec<u8>, reported: usize) -> (r: Result<Delivery, TransportError>)
        ensures
            reported == bytes@.len() ==> r == Ok::<Delivery, TransportError>(
                Delivery::Chunk(bytes),
            ),
            reported != bytes@.len() ==> r == Err::<Delivery, TransportError>(
                TransportError::LengthMismatch,
            ),
    {
        if bytes.len() == reported {
            Ok(Delivery::Chunk(bytes))
        } else {
            Err(TransportError::LengthMismatch)
        }
    }
}

/// The longest chunk that goes out in one write: its length must fit 32
/// bits.
pub const MAX_CHUNK: usize = 0xffff_ffff;

/// What the decoder asks of its driver.
#[derive(Debug, Clone, PartialEq, Eq)]
pub enum Decoded {
    /// One complete message was taken from the pending bytes.
    Message(Message),
    /// No complete message is pending: read the next chunk.
    NeedChunk,
    /// No complete message is pending and the stream has ended.
    Closed,
}

/// The pending bytes once a delivery has been taken in.
pub open spec fn taken_in(pending: Seq<u8>, delivery: Delivery) -> Seq<u8> {
    match delivery {
        Delivery::Chunk(chunk) => pending + chunk@,
        _ => pending,
    }
}

/// The outcome of parsing one complete frame: its message, or the error of
/// a malformed body where it holds none.
pub open spec fn frame_outcome(frame: Seq<u8>, r: Result<Option<Message>, ProtocolError>) -> bool {
    match backend_message(frame) {
        Some(content) => (r matches Ok(Some(message)) && message@ == content),
        None => r == Err::<Option<Message>, ProtocolError>(ProtocolError::MalformedBody),
    }
}

/// One decoding step from `before` to `after` with result `r`: a malformed
/// header is an error, an incomplete message leaves everything in place,
/// and a complete one leaves the front of the pending bytes and is parsed.
pub open spec fn decode_step(
    before: Seq<u8>,
    after: Seq<u8>,
    r: Result<Option<Message>, ProtocolError>,
) -> bool {
    if malformed(before) {
        after == before && r == Err::<Option<Message>, ProtocolError>(ProtocolError::MalformedHeader)
    } else if !frame_ready(before) {
        after == before && r == Ok::<Option<Message>, ProtocolError>(None)
    } else {
        after == before.skip(frame_size(before)) && frame_outcome(
            before.take(frame_size(before)),
            r,
        )
    }
}

impl View for Connection {
    type V = Seq<u8>;

    closed spec fn view(&self) -> Seq<u8> {
        buffered(self.pending)
    }
}

impl Connection {
    /// A connection on which nothing has arrived yet.
    pub fn new() -> (connection: Connection)
        ensures
            connection@ == Seq::<u8>::empty(),
    {
        Connection { pending: BytesMut::new() }
    }

    /// The number of pending bytes.
    pub fn pending_len(&self) -> (n: usize)
        ensures
            n == self@.len(),
    {
        self.pending.len()
    }

    /// A copy of the pending bytes.
    pub fn pending_bytes(&self) -> (bytes: Vec<u8>)
        ensures
            bytes@ == self@,
    {
        crate::buffer::buffer_to_vec(&self.pending)
    }

    /// The chunk that is to be written to the stream for `data`: the same
    /// bytes, where a single write can take them. The pending bytes are not
    /// touched.
    pub fn encode(&self, data: BytesMut) -> (r: Result<Vec<u8>, TransportError>)
        ensures
            buffered(data).len() <= MAX_CHUNK ==> r is Ok && r->Ok_0@ == buffered(data),
            buffered(data).len() > MAX_CHUNK ==> r == Err::<Vec<u8>, TransportError>(
                TransportError::ChunkTooLarge,
            ),
    {
        if data.len() > MAX_CHUNK {
            Err(TransportError::ChunkTooLarge)
        } else {
            Ok(crate::buffer::buffer_to_vec(&data))
        }
    }

    /// Appends a chunk that the transport delivered behind the pending
    /// bytes.
    pub fn feed(&mut self, chunk: &[u8])
        ensures
            final(self)@ == old(self)@ + chunk@,
    {
        self.pending.extend_from_slice(chunk);
    }

    /// Decodes one message from the pending bytes without touching the
    /// network.
    pub fn decode_pending(&mut self) -> (r: Result<Option<Message>, ProtocolError>)
        ensures
            decode_step(old(self)@, final(self)@, r),
    {
        let header = match parse_header(&self.pending) {
            Ok(Some(header)) => header,
            Ok(None) => {
                return Ok(None);
            },
            Err(_) => {
                return Err(ProtocolError::MalformedHeader);
            },
        };
        let size: usize = header.declared_length as usize + 1;
        if self.pending.len() < size {
            return Ok(None);
        }
        let ghost before = self@;
        let mut frame = self.pending.split_to(size);
        proof {
            assert(before.take(size as int).subrange(1, 5) =~= before.subrange(1, 5));
            assert(is_frame(buffered(frame)));
        }
        match parse_frame(&mut frame) {
            Ok(Some(raw)) => match open_message(raw) {
                Ok(message) => Ok(Some(message)),
                Err(e) => Err(e),
            },
            Ok(None) => Ok(None),
            Err(_) => Err(ProtocolError::MalformedBody),
        }
    }

    /// Takes in what the transport delivered, then decodes from the pending
    /// bytes. Every message that is already buffered is handed out before
    /// another chunk is asked for, and before the end of the stream is
    /// reported.
    pub fn decode(&mut self, delivery: Delivery) -> (r: Result<Decoded, ProtocolError>)
        ensures
            match r {
                Ok(Decoded::Message(message)) => decode_step(
                    taken_in(old(self)@, delivery),
                    final(self)@,
                    Ok(Some(message)),
                ),
                Ok(Decoded::NeedChunk) => !(delivery is End) && decode_step(
                    taken_in(old(self)@, delivery),
                    final(self)@,
                    Ok(None),
                ),
                Ok(Decoded::Closed) => delivery is End && decode_step(
                    taken_in(old(self)@, delivery),
                    final(self)@,
                    Ok(None),
                ),
                Err(e) => decode_step(taken_in(old(self)@, delivery), final(self)@, Err(e)),
            },
    {
        let ended = match &delivery {
            Delivery::Nothing => false,
            Delivery::Chunk(chunk) => {
                self.feed(chunk.as_slice());
                false
            },
            Delivery::End => true,
        };
        match self.decode_pending() {
            Ok(Some(message)) => Ok(Decoded::Message(message)),
            Ok(None) => if ended {
                Ok(Decoded::Closed)
            } else {
                Ok(Decoded::NeedChunk)
            },
            Err(e) => Err(e),
        }
    }
}

/// The pending bytes at which a driver stops asking for chunks: it takes in
/// the chunks one by one, each only while the pending bytes neither start
/// with a complete message nor with a malformed header.
pub open spec fn reassembled(pending: Seq<u8>, chunks: Seq<Seq<u8>>) -> Seq<u8>
    decreases chunks.len(),
{
    if frame_ready(pending) || malformed(pending) || chunks.len() == 0 {
        pending
    } else {
        reassembled(pending + chunks[0], chunks.skip(1))
    }
}

/// The pending bytes that are left of `frames` followed by `partial` once
/// the first `done` frames were decoded.
pub open spec fn left_after(frames: Seq<Seq<u8>>, partial: Seq<u8>, done: int) -> Seq<u8> {
    frames.skip(done).flatten() + partial
}

/// A complete message is found again, whole and alone, at the front of
/// whatever follows it.
pub proof fn lemma_frame_then_tail(frame: Seq<u8>, tail: Seq<u8>)
    requires
        is_frame(frame),
    ensures
        frame_ready(frame + tail),
        !malformed(frame + tail),
        frame_size(frame + tail) == frame.len(),
        (frame + tail).take(frame.len() as int) == frame,
        (frame + tail).skip(frame.len() as int) == tail,
{
    assert((frame + tail).subrange(1, 5) =~= frame.subrange(1, 5));
    assert((frame + tail).take(frame.len() as int) =~= frame);
    assert((frame + tail).skip(frame.len() as int) =~= tail);
}

/// A proper prefix of a complete message is neither malformed nor
/// complete; only the whole message is.
pub proof fn lemma_prefix_of_frame(frame: Seq<u8>, n: int)
    requires
        is_frame(frame),
        0 <= n <= frame.len(),
    ensures
        !malformed(frame.take(n)),
        frame_ready(frame.take(n)) <==> n == frame.len(),
{
    if n >= 5 {
        assert(frame.take(n).subrange(1, 5) =~= frame.subrange(1, 5));
    }
    if n == frame.len() {
        assert(frame.take(n) =~= frame);
    }
}

/// Reassembly does not depend on chunk boundaries: however the bytes of
/// one complete message are cut into chunks, and whatever part of them is
/// already pending, the driver stops exactly when the pending bytes are
/// that message, and the decoding step it then makes is the one made on
/// the message delivered whole: its outcome is that of the unsplit frame
/// and nothing stays pending.
pub proof fn lemma_reassembly_ignores_chunk_boundaries(
    frame: Seq<u8>,
    pending: Seq<u8>,
    chunks: Seq<Seq<u8>>,
)
    requires
        is_frame(frame),
        pending + chunks.flatten() == frame,
    ensures
        reassembled(pending, chunks) == frame,
        forall|after: Seq<u8>, r: Result<Option<Message>, ProtocolError>|
            decode_step(reassembled(pending, chunks), after, r) ==> after == Seq::<u8>::empty()
                && frame_outcome(frame, r),
    decreases chunks.len(),
{
    let n = pending.len() as int;
    assert(n <= frame.len()) by {
        assert((pending + chunks.flatten()).len() == n + chunks.flatten().len());
    }
    assert(frame.take(n) =~= pending);
    lemma_prefix_of_frame(frame, n);
    if chunks.len() == 0 {
        assert(chunks.flatten() =~= Seq::<u8>::empty());
        assert(pending =~= frame);
    } else if frame_ready(pending) {
        assert(pending =~= frame);
    } else {
        assert(chunks.flatten() == chunks[0] + chunks.skip(1).flatten()) by {
            assert(chunks.drop_first() =~= chunks.skip(1));
        }
        assert((pending + chunks[0]) + chunks.skip(1).flatten() =~= pending + chunks.flatten());
        lemma_reassembly_ignores_chunk_boundaries(frame, pending + chunks[0], chunks.skip(1));
    }
    assert(frame.take(frame.len() as int) =~= frame);
    assert(frame.skip(frame.len() as int) =~= Seq::<u8>::empty());
}

/// Every buffered message is drained, and no byte of a partial one is
/// touched: where the pending bytes are complete messages followed by the
/// beginning of another, the decoding step after `done` of them takes
/// exactly the next message, whose outcome is that of its own frame, and
/// leaves what follows it; after the last of them the step finds no
/// message and leaves the partial one in place.
pub proof fn lemma_drains_complete_messages(
    frames: Seq<Seq<u8>>,
    partial: Seq<u8>,
    done: int,
)
    requires
        forall|k: int| 0 <= k < frames.len() ==> is_frame(#[trigger] frames[k]),
        !frame_ready(partial),
        !malformed(partial),
        0 <= done <= frames.len(),
    ensures
        done == frames.len() ==> left_after(frames, partial, done) == partial,
        forall|after: Seq<u8>, r: Result<Option<Message>, ProtocolError>|
            #[trigger] decode_step(left_after(frames, partial, done), after, r) ==> if done
                < frames.len() {
                after == left_after(frames, partial, done + 1) && frame_outcome(frames[done], r)
            } else {
                after == partial && r == Ok::<Option<Message>, ProtocolError>(None)
            },
{
    let rest = frames.skip(done);
    if done == frames.len() {
        assert(rest.flatten() =~= Seq::<u8>::empty());
        assert(left_after(frames, partial, done) =~= partial);
    } else {
        assert(rest.drop_first() =~= frames.skip(done + 1));
        assert(rest.flatten() == frames[done] + frames.skip(done + 1).flatten());
        assert(left_after(frames, partial, done) =~= frames[done] + left_after(
            frames,
            partial,
            done + 1,
        ));
        lemma_frame_then_tail(frames[done], left_after(frames, partial, done + 1));
    }
}

} // verus!
