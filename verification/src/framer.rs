//! The message framer: a small state machine that consumes fixed-size chunks
//! from the receive buffer and assembles a terminated message.
//!
//! The wire protocol is fixed-offset: every chunk is exactly eight bytes,
//! byte 5 is the one payload character, and bytes 6 and 7 must be the
//! carriage-return/line-feed terminator. A payload character equal to the
//! configured sentinel completes the message. The sentinel is a parameter,
//! not a constant: observed transports have used different values.

use vstd::prelude::*;

verus! {

/// Every receive cycle hands the framer exactly this many bytes.
pub const CHUNK_SIZE: usize = 8;

/// Offset of the single payload character within a chunk.
pub const PAYLOAD_OFFSET: usize = 5;

/// First byte of the two-byte chunk terminator (carriage return).
pub const TERMINATOR_FIRST: u8 = 13;

/// Second byte of the two-byte chunk terminator (line feed).
pub const TERMINATOR_SECOND: u8 = 10;

/// Recoverable per-chunk framing errors. The offending chunk is discarded,
/// accumulation state is untouched, and the receive loop goes on.
#[derive(Clone, Copy, Debug, PartialEq, Eq, Structural)]
pub enum FrameError {
    /// The chunk is not exactly `CHUNK_SIZE` bytes: a protocol violation,
    /// rejected rather than partially parsed.
    WrongChunkLength,
    /// Bytes 6 and 7 of the chunk are not the two-byte terminator.
    TerminatorNotFound,
}

/// A chunk the framer accepts: exactly eight bytes closed by the two-byte
/// terminator.
pub open spec fn chunk_well_formed(chunk: Seq<u8>) -> bool {
    &&& chunk.len() == CHUNK_SIZE
    &&& chunk[6] == TERMINATOR_FIRST
    &&& chunk[7] == TERMINATOR_SECOND
}

/// The one payload character of a chunk.
pub open spec fn chunk_payload(chunk: Seq<u8>) -> u8 {
    chunk[PAYLOAD_OFFSET as int]
}

/// The framer state machine. It is always accumulating; a completed message
/// stays exposed until the consumer takes it, which is the single point
/// where the accumulation buffer is cleared.
pub struct Framer {
    partial: Vec<u8>,
    sentinel: u8,
    ready: bool,
}

impl Framer {
    /// The payload characters accumulated so far.
    pub closed spec fn spec_message(&self) -> Seq<u8> {
        self.partial@
    }

    /// The payload value that completes a message.
    pub closed spec fn spec_sentinel(&self) -> u8 {
        self.sentinel
    }

    /// Whether a completed message is waiting for the consumer.
    pub closed spec fn spec_ready(&self) -> bool {
        self.ready
    }

    /// A fresh framer with an empty message, completing on `sentinel`.
    pub fn new(sentinel: u8) -> (framer: Framer)
        ensures
            framer.spec_message() == Seq::<u8>::empty(),
            framer.spec_sentinel() == sentinel,
            !framer.spec_ready(),
    {
        Framer { partial: Vec::new(), sentinel, ready: false }
    }

    /// The accumulated payload characters, for inspection.
    pub fn message(&self) -> (message: &Vec<u8>)
        ensures
            message@ == self.spec_message(),
    {
        &self.partial
    }

    /// Whether a completed message is waiting for the consumer.
    pub fn is_ready(&self) -> (r: bool)
        ensures
            r == self.spec_ready(),
    {
        self.ready
    }

    /// The configured sentinel value.
    pub fn sentinel(&self) -> (s: u8)
        ensures
            s == self.spec_sentinel(),
    {
        self.sentinel
    }

    /// Consumes one received chunk. A well-formed chunk contributes its
    /// payload character to the message, and completes the message exactly
    /// when that character is the sentinel — `Ok(true)` tells the consumer a
    /// message is ready. A malformed chunk is discarded with the matching
    /// error and leaves the accumulation state unchanged.
    pub fn push_chunk(&mut self, chunk: &[u8]) -> (r: Result<bool, FrameError>)
        requires
            !old(self).spec_ready(),
        ensures
            final(self).spec_sentinel() == old(self).spec_sentinel(),
            final(self).spec_message() == message_after(old(self).spec_message(), seq![chunk@]),
            final(self).spec_ready() == ready_after(
                old(self).spec_sentinel(),
                old(self).spec_ready(),
                seq![chunk@],
            ),
            chunk_well_formed(chunk@) ==> {
                &&& r == Ok::<bool, FrameError>(chunk_payload(chunk@) == old(self).spec_sentinel())
                &&& final(self).spec_message() == old(self).spec_message().push(
                    chunk_payload(chunk@),
                )
                &&& final(self).spec_ready() == (chunk_payload(chunk@) == old(
                    self,
                ).spec_sentinel())
            },
            !chunk_well_formed(chunk@) ==> {
                &&& final(self).spec_message() == old(self).spec_message()
                &&& !final(self).spec_ready()
                &&& (chunk@.len() != CHUNK_SIZE ==> r == Err::<bool, FrameError>(
                    FrameError::WrongChunkLength,
                ))
                &&& (chunk@.len() == CHUNK_SIZE ==> r == Err::<bool, FrameError>(
                    FrameError::TerminatorNotFound,
                ))
            },
    {
        proof {
            lemma_one_chunk(
                old(self).spec_message(),
                old(self).spec_sentinel(),
                old(self).spec_ready(),
                chunk@,
            );
        }
        if chunk.len() != CHUNK_SIZE {
            return Err(FrameError::WrongChunkLength);
        }
        if chunk[6] != TERMINATOR_FIRST || chunk[7] != TERMINATOR_SECOND {
            return Err(FrameError::TerminatorNotFound);
        }
        let payload = chunk[PAYLOAD_OFFSET];
        self.partial.push(payload);
        if payload == self.sentinel {
            self.ready = true;
            Ok(true)
        } else {
            Ok(false)
        }
    }

    /// Hands the completed message to the consumer and resets the framer to
    /// accumulating on an empty message. This is the only point at which the
    /// message buffer is cleared, and it runs exactly once per completed
    /// message.
    pub fn take_message(&mut self) -> (message: Vec<u8>)
        requires
            old(self).spec_ready(),
        ensures
            message@ == old(self).spec_message(),
            final(self).spec_message() == Seq::<u8>::empty(),
            !final(self).spec_ready(),
            final(self).spec_sentinel() == old(self).spec_sentinel(),
    {
        self.ready = false;
        let message = self.partial.split_off(0);
        proof {
            assert(message@ =~= old(self).spec_message());
            assert(self.partial@ =~= Seq::<u8>::empty());
        }
        message
    }
}

/// The payload characters of a run of chunks, in order.
pub open spec fn payloads(chunks: Seq<Seq<u8>>) -> Seq<u8> {
    chunks.map_values(|chunk: Seq<u8>| chunk_payload(chunk))
}

/// The message accumulated after feeding `chunks` to a framer that already
/// held `partial`: each well-formed chunk contributes its payload character,
/// a malformed chunk contributes nothing.
pub open spec fn message_after(partial: Seq<u8>, chunks: Seq<Seq<u8>>) -> Seq<u8>
    decreases chunks.len(),
{
    if chunks.len() == 0 {
        partial
    } else {
        message_after(
            if chunk_well_formed(chunks[0]) {
                partial.push(chunk_payload(chunks[0]))
            } else {
                partial
            },
            chunks.subrange(1, chunks.len() as int),
        )
    }
}

/// Whether a completed message stands after feeding `chunks` to a framer
/// whose readiness starts as `ready`: a well-formed chunk leaves the framer
/// ready exactly when its payload character is the sentinel, a malformed
/// chunk changes nothing.
pub open spec fn ready_after(sentinel: u8, ready: bool, chunks: Seq<Seq<u8>>) -> bool
    decreases chunks.len(),
{
    if chunks.len() == 0 {
        ready
    } else {
        ready_after(
            sentinel,
            if chunk_well_formed(chunks[0]) {
                chunk_payload(chunks[0]) == sentinel
            } else {
                ready
            },
            chunks.subrange(1, chunks.len() as int),
        )
    }
}

/// Over well-formed chunks, readiness after the run is decided by the last
/// chunk alone: the framer holds a completed message exactly when the last
/// payload character is the sentinel.
pub proof fn lemma_ready_after_well_formed(sentinel: u8, ready: bool, chunks: Seq<Seq<u8>>)
    requires
        chunks.len() > 0,
        forall|i: int| 0 <= i < chunks.len() ==> chunk_well_formed(#[trigger] chunks[i]),
    ensures
        ready_after(sentinel, ready, chunks) == (chunk_payload(chunks.last()) == sentinel),
    decreases chunks.len(),
{
    let rest = chunks.subrange(1, chunks.len() as int);
    if chunks.len() == 1 {
        assert(rest =~= Seq::<Seq<u8>>::empty());
        assert(ready_after(sentinel, chunk_payload(chunks[0]) == sentinel, rest)
            == (chunk_payload(chunks[0]) == sentinel));
    } else {
        lemma_ready_after_well_formed(sentinel, chunk_payload(chunks[0]) == sentinel, rest);
        assert(rest.last() == chunks.last());
    }
}

/// One chunk changes the framer state exactly as the state machine says: a
/// well-formed chunk appends its payload character and decides readiness by
/// the sentinel, a malformed one changes nothing.
pub proof fn lemma_one_chunk(partial: Seq<u8>, sentinel: u8, ready: bool, chunk: Seq<u8>)
    ensures
        message_after(partial, seq![chunk]) == (if chunk_well_formed(chunk) {
            partial.push(chunk_payload(chunk))
        } else {
            partial
        }),
        ready_after(sentinel, ready, seq![chunk]) == (if chunk_well_formed(chunk) {
            chunk_payload(chunk) == sentinel
        } else {
            ready
        }),
{
    assert(seq![chunk].subrange(1, 1) =~= Seq::<Seq<u8>>::empty());
    assert(message_after(partial, Seq::<Seq<u8>>::empty()) == partial);
    assert(message_after(partial.push(chunk_payload(chunk)), Seq::<Seq<u8>>::empty())
        == partial.push(chunk_payload(chunk)));
    assert(ready_after(sentinel, ready, Seq::<Seq<u8>>::empty()) == ready);
    assert(ready_after(sentinel, chunk_payload(chunk) == sentinel, Seq::<Seq<u8>>::empty()) == (
    chunk_payload(chunk) == sentinel));
}

/// Framer round trip: fed a run of well-formed chunks whose payload
/// characters avoid the sentinel until the last chunk carries it, the framer
/// completes exactly one message — none stands before the last chunk, one
/// stands after it — and its content is the concatenation of all the
/// payload characters in arrival order.
pub proof fn lemma_framer_round_trip(partial: Seq<u8>, sentinel: u8, chunks: Seq<Seq<u8>>)
    requires
        chunks.len() > 0,
        forall|i: int| 0 <= i < chunks.len() ==> chunk_well_formed(#[trigger] chunks[i]),
        forall|i: int| 0 <= i < chunks.len() - 1 ==> chunk_payload(#[trigger] chunks[i]) != sentinel,
        chunk_payload(chunks.last()) == sentinel,
    ensures
        message_after(partial, chunks) == partial + payloads(chunks),
        ready_after(sentinel, false, chunks),
        forall|i: int|
            0 < i < chunks.len() ==> !#[trigger] ready_after(
                sentinel,
                false,
                chunks.subrange(0, i),
            ),
{
    lemma_message_after_well_formed(partial, chunks);
    lemma_ready_after_well_formed(sentinel, false, chunks);
    assert forall|i: int|
        0 < i < chunks.len() implies !#[trigger] ready_after(
        sentinel,
        false,
        chunks.subrange(0, i),
    ) by {
        let prefix = chunks.subrange(0, i);
        lemma_ready_after_well_formed(sentinel, false, prefix);
        assert(prefix.last() == chunks[i - 1]);
    }
}

/// Over well-formed chunks, the accumulated message is the prior message
/// followed by every payload character in order.
pub proof fn lemma_message_after_well_formed(partial: Seq<u8>, chunks: Seq<Seq<u8>>)
    requires
        forall|i: int| 0 <= i < chunks.len() ==> chunk_well_formed(#[trigger] chunks[i]),
    ensures
        message_after(partial, chunks) == partial + payloads(chunks),
    decreases chunks.len(),
{
    if chunks.len() == 0 {
        assert(message_after(partial, chunks) =~= partial + payloads(chunks));
    } else {
        let rest = chunks.subrange(1, chunks.len() as int);
        lemma_message_after_well_formed(partial.push(chunk_payload(chunks[0])), rest);
        assert(partial.push(chunk_payload(chunks[0])) + payloads(rest) =~= partial + payloads(
            chunks,
        ));
    }
}

} // verus!
