//! The streaming transport: a pull-style, backpressured byte stream fed
//! by a push-style producer through a bounded buffer.
//!
//! The buffer holds at most [`CHANNEL_CAPACITY`] chunks. The producer
//! suspends when the buffer is full; the consumer suspends when it is
//! empty — this is the only flow-control mechanism. A consumer that drops
//! its handle closes the buffer: the next producer send reports the
//! closure silently and the producer terminates. A terminal producer
//! error is delivered as a single failure item that ends the sequence;
//! once the sequence has ended it can never resume.
//!
//! The unverified edge that schedules the producer and consumer lives
//! outside the library; it drives this state machine and performs the
//! suspensions the outcomes call for.

use vstd::prelude::*;
use vstd::slice::{slice_subrange, slice_to_vec};

use crate::error::Error;

verus! {

/// The bounded buffer's capacity, in chunks.
pub const CHANNEL_CAPACITY: usize = 16;

/// The fixed chunk size used when a finished output file is re-exposed as
/// a byte stream.
pub const RESTREAM_CHUNK_SIZE: usize = 65535;

/// What a producer send attempt came to.
pub enum SendOutcome {
    /// The chunk was accepted into the buffer.
    Accepted,
    /// The buffer is full: the chunk is handed back and the producer must
    /// suspend before offering it again.
    Full(Vec<u8>),
    /// The consumer dropped its handle: the chunk is discarded, no error
    /// is raised, and the producer must terminate.
    Closed,
}

/// What a consumer poll came to.
pub enum PollOutcome {
    /// The next chunk, in production order.
    Item(Vec<u8>),
    /// The buffer is empty but the producer may still send: the consumer
    /// must suspend.
    Pending,
    /// The producer's terminal error, delivered exactly once; the
    /// sequence has ended.
    Failed(Error),
    /// End of data; the sequence has ended.
    End,
}

/// An ordered, finite sequence of binary chunks moved from one producer
/// to one consumer through a bounded buffer.
pub struct BytesStream {
    queue: Vec<Vec<u8>>,
    closed: bool,
    finished: bool,
    error: Option<Error>,
    ended: bool,
    sent: Ghost<Seq<Seq<u8>>>,
    received: Ghost<Seq<Seq<u8>>>,
}

impl BytesStream {
    /// The chunks currently buffered, oldest first.
    pub closed spec fn queued(self) -> Seq<Seq<u8>> {
        self.queue@.map_values(|c: Vec<u8>| c@)
    }

    /// Every chunk the producer has successfully sent, in order.
    pub closed spec fn spec_sent(self) -> Seq<Seq<u8>> {
        self.sent@
    }

    /// Every chunk the consumer has received, in order.
    pub closed spec fn spec_received(self) -> Seq<Seq<u8>> {
        self.received@
    }

    /// The consumer has dropped its handle.
    pub closed spec fn spec_closed(self) -> bool {
        self.closed
    }

    /// The producer has signalled end-of-data.
    pub closed spec fn spec_finished(self) -> bool {
        self.finished
    }

    /// A terminal error is waiting to be delivered.
    pub closed spec fn spec_failing(self) -> bool {
        self.error is Some
    }

    /// The sequence has ended: a terminal error or end-of-data was
    /// delivered, and nothing more can ever be received.
    pub closed spec fn spec_ended(self) -> bool {
        self.ended
    }

    /// Well-formedness: the buffer never exceeds its capacity, and the
    /// chunks received so far followed by the chunks still buffered are
    /// exactly the chunks sent, in order.
    pub closed spec fn wf(self) -> bool {
        &&& self.queue@.len() <= CHANNEL_CAPACITY
        &&& self.spec_received() + self.queued() == self.spec_sent()
    }

    /// Both ends' flags are the same in `self` as in `other`.
    pub open spec fn flags_match(self, other: BytesStream) -> bool {
        &&& self.spec_closed() == other.spec_closed()
        &&& self.spec_finished() == other.spec_finished()
        &&& self.spec_failing() == other.spec_failing()
        &&& self.spec_ended() == other.spec_ended()
    }

    /// A fresh stream: nothing sent, nothing received, both ends live.
    pub fn new() -> (s: BytesStream)
        ensures
            s.wf(),
            s.spec_sent() == Seq::<Seq<u8>>::empty(),
            s.spec_received() == Seq::<Seq<u8>>::empty(),
            !s.spec_closed(),
            !s.spec_finished(),
            !s.spec_failing(),
            !s.spec_ended(),
    {
        let s = BytesStream {
            queue: Vec::new(),
            closed: false,
            finished: false,
            error: None,
            ended: false,
            sent: Ghost(Seq::empty()),
            received: Ghost(Seq::empty()),
        };
        proof {
            assert(s.spec_received() + s.queued() =~= s.spec_sent());
        }
        s
    }

    /// One producer send attempt.
    ///
    /// On a closed buffer the chunk is dropped silently and no error is
    /// raised — the closure signals intentional cancellation by the
    /// consumer, and the producer is expected to terminate. On a full
    /// buffer the chunk is handed back unchanged. Otherwise the chunk is
    /// appended to what was sent.
    pub fn offer(&mut self, chunk: Vec<u8>) -> (r: SendOutcome)
        requires
            old(self).wf(),
        ensures
            final(self).wf(),
            old(self).spec_closed() ==> (r is Closed && *final(self) == *old(self)),
            !old(self).spec_closed() && old(self).queued().len() == CHANNEL_CAPACITY ==> ((
            r matches SendOutcome::Full(c) && c@ == chunk@) && *final(self) == *old(self)),
            !old(self).spec_closed() && old(self).queued().len() < CHANNEL_CAPACITY ==> (
            r is Accepted && final(self).spec_sent() == old(self).spec_sent().push(chunk@)
                && final(self).spec_received() == old(self).spec_received()
                && final(self).flags_match(*old(self))),
    {
        if self.closed {
            return SendOutcome::Closed;
        }
        if self.queue.len() == CHANNEL_CAPACITY {
            return SendOutcome::Full(chunk);
        }
        proof {
            self.sent@ = self.sent@.push(chunk@);
        }
        self.queue.push(chunk);
        proof {
            assert(self.spec_received() + self.queued() =~= self.spec_sent());
        }
        SendOutcome::Accepted
    }

    /// The producer signals that the data ended normally.
    pub fn finish(&mut self)
        requires
            old(self).wf(),
        ensures
            final(self).wf(),
            final(self).spec_finished(),
            final(self).spec_sent() == old(self).spec_sent(),
            final(self).spec_received() == old(self).spec_received(),
            final(self).queued() == old(self).queued(),
            final(self).spec_closed() == old(self).spec_closed(),
            final(self).spec_failing() == old(self).spec_failing(),
            final(self).spec_ended() == old(self).spec_ended(),
    {
        self.finished = true;
    }

    /// The producer signals a terminal error, to be delivered to the
    /// consumer as a single failure item that ends the sequence.
    pub fn fail(&mut self, e: Error)
        requires
            old(self).wf(),
        ensures
            final(self).wf(),
            final(self).spec_failing(),
            final(self).spec_sent() == old(self).spec_sent(),
            final(self).spec_received() == old(self).spec_received(),
            final(self).queued() == old(self).queued(),
            final(self).spec_closed() == old(self).spec_closed(),
            final(self).spec_finished() == old(self).spec_finished(),
            final(self).spec_ended() == old(self).spec_ended(),
    {
        self.error = Some(e);
    }

    /// The consumer drops its handle: the buffer closes, which is the
    /// only cancellation signal the producer ever sees.
    pub fn drop_handle(&mut self)
        requires
            old(self).wf(),
        ensures
            final(self).wf(),
            final(self).spec_closed(),
            final(self).spec_sent() == old(self).spec_sent(),
            final(self).spec_received() == old(self).spec_received(),
            final(self).queued() == old(self).queued(),
            final(self).spec_finished() == old(self).spec_finished(),
            final(self).spec_failing() == old(self).spec_failing(),
            final(self).spec_ended() == old(self).spec_ended(),
    {
        self.closed = true;
    }

    /// One consumer poll.
    ///
    /// Buffered chunks are delivered first, oldest first, whatever else
    /// has happened; then a pending terminal error ends the sequence;
    /// then end-of-data ends it; an empty buffer with a live producer
    /// suspends the consumer. An ended sequence never resumes.
    pub fn poll_next(&mut self) -> (r: PollOutcome)
        requires
            old(self).wf(),
        ensures
            final(self).wf(),
            final(self).spec_sent() == old(self).spec_sent(),
            final(self).spec_closed() == old(self).spec_closed(),
            final(self).spec_finished() == old(self).spec_finished(),
            old(self).spec_ended() ==> (r is End && *final(self) == *old(self)),
            !old(self).spec_ended() && old(self).queued().len() > 0 ==> ((
            r matches PollOutcome::Item(c) && c@ == old(self).queued().first())
                && final(self).spec_received() == old(self).spec_received().push(
                old(self).queued().first())
                && final(self).queued() == old(self).queued().drop_first()
                && final(self).spec_failing() == old(self).spec_failing()
                && final(self).spec_ended() == old(self).spec_ended()),
            !old(self).spec_ended() && old(self).queued().len() == 0 && old(self).spec_failing()
                ==> (r is Failed && final(self).spec_ended()
                && final(self).spec_received() == old(self).spec_received()),
            !old(self).spec_ended() && old(self).queued().len() == 0 && !old(self).spec_failing()
                && old(self).spec_finished() ==> (r is End && final(self).spec_ended()
                && final(self).spec_received() == old(self).spec_received()),
            !old(self).spec_ended() && old(self).queued().len() == 0 && !old(self).spec_failing()
                && !old(self).spec_finished() ==> (r is Pending && *final(self) == *old(self)),
    {
        if self.ended {
            return PollOutcome::End;
        }
        if self.queue.len() > 0 {
            let chunk = self.queue.remove(0);
            proof {
                self.received@ = self.received@.push(chunk@);
                assert(self.queued() =~= old(self).queued().drop_first());
                assert(self.spec_received() + self.queued() =~= self.spec_sent());
            }
            return PollOutcome::Item(chunk);
        }
        let failure = self.error.take();
        match failure {
            Some(e) => {
                self.ended = true;
                PollOutcome::Failed(e)
            },
            None => {
                if self.finished {
                    self.ended = true;
                    PollOutcome::End
                } else {
                    PollOutcome::Pending
                }
            },
        }
    }
}

/// The total byte count of a sequence of chunks.
pub open spec fn spec_total_bytes(chunks: Seq<Seq<u8>>) -> nat
    decreases chunks.len(),
{
    if chunks.len() == 0 {
        0
    } else {
        chunks.first().len() + spec_total_bytes(chunks.drop_first())
    }
}

/// What the consumer has received is always a prefix of what the producer
/// sent: no chunk is dropped, duplicated or reordered in flight.
pub proof fn lemma_received_is_sent_prefix(s: BytesStream)
    requires
        s.wf(),
    ensures
        s.spec_received().len() <= s.spec_sent().len(),
        s.spec_received() == s.spec_sent().subrange(0, s.spec_received().len() as int),
{
    assert(s.spec_received() =~= s.spec_sent().subrange(0, s.spec_received().len() as int));
}

proof fn lemma_total_bytes_concat(a: Seq<Seq<u8>>, b: Seq<Seq<u8>>)
    ensures
        spec_total_bytes(a + b) == spec_total_bytes(a) + spec_total_bytes(b),
    decreases a.len(),
{
    if a.len() == 0 {
        assert(a + b =~= b);
    } else {
        assert((a + b).drop_first() =~= a.drop_first() + b);
        lemma_total_bytes_concat(a.drop_first(), b);
    }
}

/// A drained stream delivered everything: once the buffer is empty, the
/// consumer has received every chunk the producer sent, in the original
/// order, and the byte totals agree.
pub proof fn lemma_drained_stream_delivers_all(s: BytesStream)
    requires
        s.wf(),
        s.queued().len() == 0,
    ensures
        s.spec_received() == s.spec_sent(),
        spec_total_bytes(s.spec_received()) == spec_total_bytes(s.spec_sent()),
{
    assert(s.spec_received() =~= s.spec_received() + s.queued());
}

/// The fixed-size chunking of a byte sequence: full chunks of `size`
/// bytes, with any remainder in a final short chunk.
pub open spec fn spec_chunks_of(data: Seq<u8>, size: nat) -> Seq<Seq<u8>>
    decreases data.len(),
{
    if size == 0 || data.len() == 0 {
        Seq::empty()
    } else if data.len() <= size {
        seq![data]
    } else {
        seq![data.take(size as int)] + spec_chunks_of(data.skip(size as int), size)
    }
}

/// The bytes of a sequence of chunks, in order.
pub open spec fn spec_concat_chunks(chunks: Seq<Seq<u8>>) -> Seq<u8>
    decreases chunks.len(),
{
    if chunks.len() == 0 {
        Seq::empty()
    } else {
        chunks.first() + spec_concat_chunks(chunks.drop_first())
    }
}

/// Chunking reorders and drops nothing: concatenating the chunks of
/// `data` gives back exactly `data`.
pub proof fn lemma_chunks_reassemble(data: Seq<u8>, size: nat)
    requires
        size > 0,
    ensures
        spec_concat_chunks(spec_chunks_of(data, size)) == data,
    decreases data.len(),
{
    if data.len() == 0 {
        assert(spec_chunks_of(data, size) =~= Seq::<Seq<u8>>::empty());
        assert(spec_concat_chunks(Seq::<Seq<u8>>::empty()) =~= data);
    } else if data.len() <= size {
        assert(spec_chunks_of(data, size) =~= seq![data]);
        assert(spec_chunks_of(data, size).drop_first() =~= Seq::<Seq<u8>>::empty());
        assert(data + spec_concat_chunks(Seq::<Seq<u8>>::empty()) =~= data);
    } else {
        assert(spec_chunks_of(data, size).first() == data.take(size as int));
        assert(spec_chunks_of(data, size).drop_first() =~= spec_chunks_of(
            data.skip(size as int),
            size,
        ));
        lemma_chunks_reassemble(data.skip(size as int), size);
        assert(data.take(size as int) + data.skip(size as int) =~= data);
    }
}

/// Chunking loses no byte: the chunks of `data` total `data.len()` bytes.
pub proof fn lemma_chunks_total_bytes(data: Seq<u8>, size: nat)
    requires
        size > 0,
    ensures
        spec_total_bytes(spec_chunks_of(data, size)) == data.len(),
    decreases data.len(),
{
    if data.len() == 0 {
        assert(spec_chunks_of(data, size) =~= Seq::<Seq<u8>>::empty());
        assert(spec_total_bytes(Seq::<Seq<u8>>::empty()) == 0);
    } else if data.len() <= size {
        assert(spec_chunks_of(data, size) =~= seq![data]);
        assert(spec_chunks_of(data, size).first() == data);
        assert(spec_chunks_of(data, size).drop_first() =~= Seq::<Seq<u8>>::empty());
        assert(spec_total_bytes(Seq::<Seq<u8>>::empty()) == 0);
        assert(spec_total_bytes(spec_chunks_of(data, size)) == data.len());
    } else {
        assert(spec_chunks_of(data, size).first() == data.take(size as int));
        assert(data.take(size as int).len() == size);
        assert(data.skip(size as int).len() == data.len() - size);
        assert(spec_chunks_of(data, size).drop_first() =~= spec_chunks_of(
            data.skip(size as int),
            size,
        ));
        lemma_chunks_total_bytes(data.skip(size as int), size);
    }
}

/// Splits the bytes of a finished output file into the fixed-size chunks
/// in which it is re-exposed as a byte stream.
pub fn restream_chunks(data: &Vec<u8>) -> (chunks: Vec<Vec<u8>>)
    ensures
        chunks@.map_values(|c: Vec<u8>| c@) == spec_chunks_of(data@, RESTREAM_CHUNK_SIZE as nat),
{
    let n = data.len();
    let mut chunks: Vec<Vec<u8>> = Vec::new();
    let mut i: usize = 0;
    proof {
        assert(data@.skip(0) == data@);
        assert(chunks@.map_values(|c: Vec<u8>| c@) =~= Seq::<Seq<u8>>::empty());
    }
    while i < n
        invariant
            i <= n,
            n == data@.len(),
            i < n ==> chunks@.map_values(|c: Vec<u8>| c@) + spec_chunks_of(
                data@.skip(i as int),
                RESTREAM_CHUNK_SIZE as nat,
            ) == spec_chunks_of(data@, RESTREAM_CHUNK_SIZE as nat),
            i == n ==> chunks@.map_values(|c: Vec<u8>| c@) == spec_chunks_of(
                data@,
                RESTREAM_CHUNK_SIZE as nat,
            ),
        decreases n - i,
    {
        let ghost before = chunks@.map_values(|c: Vec<u8>| c@);
        let end = if n - i <= RESTREAM_CHUNK_SIZE {
            n
        } else {
            i + RESTREAM_CHUNK_SIZE
        };
        let chunk = slice_to_vec(slice_subrange(data.as_slice(), i, end));
        chunks.push(chunk);
        proof {
            let rest = data@.skip(i as int);
            if n - i <= RESTREAM_CHUNK_SIZE {
                assert(rest.len() <= RESTREAM_CHUNK_SIZE);
                assert(data@.subrange(i as int, end as int) =~= rest);
                assert(spec_chunks_of(rest, RESTREAM_CHUNK_SIZE as nat) =~= seq![rest]);
            } else {
                assert(data@.subrange(i as int, end as int) =~= rest.take(
                    RESTREAM_CHUNK_SIZE as int,
                ));
                assert(rest.skip(RESTREAM_CHUNK_SIZE as int) =~= data@.skip(end as int));
            }
            assert(chunks@.map_values(|c: Vec<u8>| c@) =~= before.push(
                data@.subrange(i as int, end as int),
            ));
        }
        i = end;
    }
    chunks
}

} // verus!
