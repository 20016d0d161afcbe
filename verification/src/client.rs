//! The transport adapter: inbound state machine, outbound buffering, id
//! assignment and request/response correlation.

use vstd::prelude::*;
use loco_protocol::command::Method;
use loco_protocol::command::client::{LocoSink, LocoStream};
use crate::codec::{
    Command, Header, FRAME_HEADER_LEN, METHOD_FIELD_LEN, METHOD_FIELD_OFFSET,
    sink_bytes, frame_of, stream_rem, pull_of, pull_rest, declared_size_of,
    header_malformed, utf8_ok,
    sink_new, sink_send, sink_len, sink_slices, sink_drain,
    stream_new, stream_feed, stream_read, stream_pending_size,
    stream_header_absorbed, stream_buffer_len, stream_slices, utf8_check,
};

verus! {

/// Progress of the inbound state machine.  `Pending` is the working state;
/// the two others are stable: once reached, every further read attempt
/// repeats the same outcome.
#[derive(Debug, Clone, Copy, PartialEq, Eq, Structural)]
pub enum ReadState {
    /// Assembling the next inbound command.
    Pending,
    /// A frame declared a payload above the size ceiling; the adapter refuses
    /// to buffer it and every further read repeats the rejection.
    PacketTooLarge,
    /// An inbound frame header cannot be decoded — its method field is not
    /// text; the adapter refuses it and every further read repeats the
    /// rejection.
    MalformedHeader,
    /// The transport signaled end-of-stream; every further read reports it.
    Closed,
}

/// Why a read attempt failed.
#[derive(Debug, Clone, Copy, PartialEq, Eq, Structural)]
pub enum ReadError {
    /// The declared payload size exceeds `LocoClient::MAX_READ_SIZE`.
    PacketTooLarge,
    /// The frame header at the front of the inbound bytes cannot be decoded:
    /// its method field is not text.
    MalformedHeader,
    /// The transport closed while a command was only partially assembled.
    UnexpectedEof,
}

/// Outcome of one inbound step.
pub enum ReadPoll {
    /// A full command was assembled.
    Ready(Command),
    /// A stable failure; the same failure repeats on every later step.
    Failed(ReadError),
    /// More transport bytes are needed: read up to
    /// `LocoClient::READ_CHUNK_SIZE` bytes and hand them to `feed`.
    NeedRead,
}

/// What the outbound path asks of the transport next.
pub enum FlushStep {
    /// Hand these bytes (a front segment of the outbound buffer) to the
    /// transport, then report via `consume` how many it accepted.
    Write(Vec<u8>),
    /// The outbound buffer is empty: flush the transport itself.
    Flush,
}

/// The transport adapter.  It owns the codec state, the request-id counter
/// and the inbound state machine; the transport value itself is carried
/// opaquely and driven by the caller.
pub struct LocoClient<T> {
    current_id: u32,
    sink: LocoSink,
    stream: LocoStream,
    read_state: ReadState,
    inner: T,
    issued: Ghost<Seq<u32>>,
    sent: Ghost<Seq<u8>>,
    queued: Ghost<Seq<u8>>,
}

impl<T> LocoClient<T> {
    /// Hard ceiling on a declared payload size: 16 MiB.
    pub const MAX_READ_SIZE: u64 = 16 * 1024 * 1024;

    /// How many bytes one transport read should request at most.
    pub const READ_CHUNK_SIZE: usize = 1024;

    /// The wrapped transport value.
    pub closed spec fn transport(&self) -> T {
        self.inner
    }

    /// The id handed out by the most recent write; 0 on a fresh adapter.
    pub closed spec fn id_counter(&self) -> u32 {
        self.current_id
    }

    /// Progress of the inbound state machine.
    pub closed spec fn read_st(&self) -> ReadState {
        self.read_state
    }

    /// Inbound bytes received but not yet part of a delivered command.
    pub closed spec fn inbound(&self) -> Seq<u8> {
        stream_rem(self.stream)
    }

    /// Outbound bytes enqueued and not yet handed to the transport.
    pub closed spec fn outbound(&self) -> Seq<u8> {
        sink_bytes(self.sink)
    }

    /// Every id handed out so far, in order.
    pub closed spec fn issued_ids(&self) -> Seq<u32> {
        self.issued@
    }

    /// Every byte handed to the transport so far, in order.
    pub closed spec fn sent_bytes(&self) -> Seq<u8> {
        self.sent@
    }

    /// Every byte ever enqueued, in order: the frames of the issued commands.
    pub closed spec fn queued_bytes(&self) -> Seq<u8> {
        self.queued@
    }

    /// Well-formedness: ids were handed out as 1, 2, 3, ... and the bytes
    /// handed to the transport are exactly the enqueued bytes no longer
    /// waiting in the outbound buffer — transmission neither reorders,
    /// drops nor invents bytes.
    pub open spec fn wf(&self) -> bool {
        &&& self.issued_ids().len() == self.id_counter() as int
        &&& (forall|i: int| 0 <= i < self.issued_ids().len()
                ==> self.issued_ids()[i] as int == i + 1)
        &&& self.queued_bytes() == self.sent_bytes() + self.outbound()
    }

    /// A fresh adapter around the given transport: counter at 0, empty
    /// buffers, inbound state machine pending.
    pub fn new(inner: T) -> (r: Self)
        ensures
            r.transport() == inner,
            r.id_counter() == 0,
            r.read_st() is Pending,
            r.inbound() == Seq::<u8>::empty(),
            r.outbound() == Seq::<u8>::empty(),
            r.issued_ids() == Seq::<u32>::empty(),
            r.sent_bytes() == Seq::<u8>::empty(),
            r.queued_bytes() == Seq::<u8>::empty(),
            r.wf(),
    {
        LocoClient {
            current_id: 0,
            sink: sink_new(),
            stream: stream_new(),
            read_state: ReadState::Pending,
            inner,
            issued: Ghost(Seq::empty()),
            sent: Ghost(Seq::empty()),
            queued: Ghost(Seq::empty()),
        }
    }

    /// The id handed out by the most recent write; 0 on a fresh adapter.
    /// The next write hands out the successor, so a caller can test for
    /// counter exhaustion before writing.
    pub fn current_id(&self) -> (r: u32)
        ensures
            r == self.id_counter(),
    {
        self.current_id
    }

    /// Read-only access to the wrapped transport.
    pub fn inner(&self) -> (r: &T)
        ensures
            *r == self.transport(),
    {
        &self.inner
    }

    /// Mutable access to the wrapped transport; everything else is untouched.
    pub fn inner_mut(&mut self) -> (r: &mut T)
        ensures
            *r == old(self).transport(),
            final(self).transport() == *final(r),
            final(self).id_counter() == old(self).id_counter(),
            final(self).read_st() == old(self).read_st(),
            final(self).inbound() == old(self).inbound(),
            final(self).outbound() == old(self).outbound(),
            final(self).issued_ids() == old(self).issued_ids(),
            final(self).sent_bytes() == old(self).sent_bytes(),
            final(self).queued_bytes() == old(self).queued_bytes(),
    {
        &mut self.inner
    }

    /// Discards the adapter and returns the transport.
    pub fn into_inner(self) -> (r: T)
        ensures
            r == self.transport(),
    {
        self.inner
    }

    /// Assigns the next id and enqueues one command: the frame of a header
    /// carrying that id, status 0 and payload type tag 0 joins the back of
    /// the outbound buffer.  Touches neither the transport nor the inbound
    /// side.
    pub fn write(&mut self, method: Method, data: &[u8]) -> (id: u32)
        requires
            old(self).id_counter() < u32::MAX,
        ensures
            id == old(self).id_counter() + 1,
            final(self).id_counter() == id,
            final(self).issued_ids() == old(self).issued_ids().push(id),
            final(self).outbound() == old(self).outbound()
                + frame_of(Header { id, status: 0u16, method, data_type: 0u8 }, data@),
            final(self).queued_bytes() == old(self).queued_bytes()
                + frame_of(Header { id, status: 0u16, method, data_type: 0u8 }, data@),
            final(self).sent_bytes() == old(self).sent_bytes(),
            final(self).read_st() == old(self).read_st(),
            final(self).inbound() == old(self).inbound(),
            final(self).transport() == old(self).transport(),
            old(self).wf() ==> final(self).wf(),
    {
        self.current_id = self.current_id + 1;
        let id = self.current_id;

        let header = Header { id, status: 0, method, data_type: 0 };
        proof {
            self.issued@ = self.issued@.push(id);
            self.queued@ = self.queued@ + frame_of(header, data@);
        }
        sink_send(&mut self.sink, header, data);

        proof {
            if old(self).wf() {
                assert(self.queued_bytes() =~= self.sent_bytes() + self.outbound());
                assert forall|i: int| 0 <= i < self.issued_ids().len()
                    implies self.issued_ids()[i] as int == i + 1 by {
                    if i < old(self).issued_ids().len() {
                        assert(self.issued_ids()[i] == old(self).issued_ids()[i]);
                    }
                }
            }
        }

        id
    }

    /// What the outbound path asks of the transport next: a non-empty front
    /// segment of the outbound buffer while any bytes wait, else a transport
    /// flush.
    pub fn poll_flush(&self) -> (r: FlushStep)
        ensures
            match r {
                FlushStep::Write(chunk) => {
                    &&& 0 < chunk@.len() <= self.outbound().len()
                    &&& chunk@ == self.outbound().take(chunk@.len() as int)
                },
                FlushStep::Flush => self.outbound().len() == 0,
            },
    {
        if sink_len(&self.sink) == 0 {
            FlushStep::Flush
        } else {
            let (a, b) = sink_slices(&self.sink);
            if a.len() > 0 {
                proof {
                    assert(self.outbound().take(a@.len() as int) =~= a@);
                }
                FlushStep::Write(a)
            } else {
                proof {
                    assert(self.outbound().take(b@.len() as int) =~= b@);
                }
                FlushStep::Write(b)
            }
        }
    }

    /// Records that the transport accepted the first `n` outbound bytes:
    /// they leave the buffer, in order, and count as sent.  Bytes already
    /// sent are never replayed.
    pub fn consume(&mut self, n: usize)
        requires
            n <= old(self).outbound().len(),
        ensures
            final(self).outbound() == old(self).outbound().skip(n as int),
            final(self).sent_bytes() == old(self).sent_bytes()
                + old(self).outbound().take(n as int),
            final(self).queued_bytes() == old(self).queued_bytes(),
            final(self).issued_ids() == old(self).issued_ids(),
            final(self).id_counter() == old(self).id_counter(),
            final(self).read_st() == old(self).read_st(),
            final(self).inbound() == old(self).inbound(),
            final(self).transport() == old(self).transport(),
            old(self).wf() ==> final(self).wf(),
    {
        proof {
            self.sent@ = self.sent@ + sink_bytes(self.sink).take(n as int);
        }
        sink_drain(&mut self.sink, n);
        proof {
            assert(old(self).wf() ==> final(self).queued_bytes()
                =~= final(self).sent_bytes() + final(self).outbound());
        }
    }

    /// One step of the inbound state machine.  In the pending state it first
    /// refuses — permanently — a front frame header the codec could not
    /// decode, then asks the codec for a command; on a miss it either rejects
    /// a frame whose declared payload exceeds `MAX_READ_SIZE` — permanently —
    /// or asks for more transport bytes.  The three failure states are
    /// stable: the same failure repeats on every later step, and the outbound
    /// side is never touched.
    pub fn poll_read(&mut self) -> (r: ReadPoll)
        ensures
            final(self).id_counter() == old(self).id_counter(),
            final(self).issued_ids() == old(self).issued_ids(),
            final(self).outbound() == old(self).outbound(),
            final(self).sent_bytes() == old(self).sent_bytes(),
            final(self).queued_bytes() == old(self).queued_bytes(),
            final(self).transport() == old(self).transport(),
            match old(self).read_st() {
                ReadState::Pending => match r {
                    ReadPoll::Ready(c) => {
                        &&& !header_malformed(old(self).inbound())
                        &&& pull_of(old(self).inbound()) == Some(c@)
                        &&& final(self).inbound() == pull_rest(old(self).inbound())
                        &&& final(self).read_st() is Pending
                    },
                    ReadPoll::Failed(e) => match e {
                        ReadError::PacketTooLarge => {
                            &&& !header_malformed(old(self).inbound())
                            &&& pull_of(old(self).inbound()) is None
                            &&& final(self).inbound() == old(self).inbound()
                            &&& final(self).inbound().len() >= FRAME_HEADER_LEN
                            &&& declared_size_of(old(self).inbound()) as u64
                                > Self::MAX_READ_SIZE
                            &&& final(self).read_st() is PacketTooLarge
                        },
                        ReadError::MalformedHeader => {
                            &&& header_malformed(old(self).inbound())
                            &&& final(self).inbound() == old(self).inbound()
                            &&& final(self).read_st() is MalformedHeader
                        },
                        ReadError::UnexpectedEof => false,
                    },
                    ReadPoll::NeedRead => {
                        &&& !header_malformed(old(self).inbound())
                        &&& pull_of(old(self).inbound()) is None
                        &&& final(self).inbound() == old(self).inbound()
                        &&& (final(self).inbound().len() >= FRAME_HEADER_LEN
                            ==> declared_size_of(old(self).inbound()) as u64
                                <= Self::MAX_READ_SIZE)
                        &&& final(self).read_st() is Pending
                    },
                },
                ReadState::PacketTooLarge => {
                    &&& r matches ReadPoll::Failed(e) && e is PacketTooLarge
                    &&& final(self).inbound() == old(self).inbound()
                    &&& final(self).read_st() is PacketTooLarge
                },
                ReadState::MalformedHeader => {
                    &&& r matches ReadPoll::Failed(e) && e is MalformedHeader
                    &&& final(self).inbound() == old(self).inbound()
                    &&& final(self).read_st() is MalformedHeader
                },
                ReadState::Closed => {
                    &&& r matches ReadPoll::Failed(e) && e is UnexpectedEof
                    &&& final(self).inbound() == old(self).inbound()
                    &&& final(self).read_st() is Closed
                },
            },
            old(self).wf() ==> final(self).wf(),
    {
        match self.read_state {
            ReadState::Pending => {
                // The codec cannot decode a header whose method field is not
                // text: refuse such a frame before handing it the bytes.
                if !stream_header_absorbed(&self.stream) {
                    let buffered = stream_buffer_len(&self.stream);
                    if buffered >= FRAME_HEADER_LEN {
                        let (a, b) = stream_slices(&self.stream);
                        let method_bytes = method_field(&a, &b);
                        if !utf8_check(&method_bytes) {
                            self.read_state = ReadState::MalformedHeader;
                            return ReadPoll::Failed(ReadError::MalformedHeader);
                        }
                    }
                }
                match stream_read(&mut self.stream) {
                    Some(command) => ReadPoll::Ready(command),
                    None => {
                        let oversized = match stream_pending_size(&self.stream) {
                            Some(data_size) => data_size as u64 > Self::MAX_READ_SIZE,
                            None => false,
                        };
                        if oversized {
                            self.read_state = ReadState::PacketTooLarge;
                            ReadPoll::Failed(ReadError::PacketTooLarge)
                        } else {
                            ReadPoll::NeedRead
                        }
                    },
                }
            },
            ReadState::PacketTooLarge => ReadPoll::Failed(ReadError::PacketTooLarge),
            ReadState::MalformedHeader => ReadPoll::Failed(ReadError::MalformedHeader),
            ReadState::Closed => ReadPoll::Failed(ReadError::UnexpectedEof),
        }
    }

    /// Hands the adapter the outcome of one transport read.  A non-empty
    /// chunk joins the inbound bytes; an empty chunk is the transport's
    /// end-of-stream signal and closes a pending inbound side for good.
    /// A stable failure state is never left.
    pub fn feed(&mut self, chunk: &[u8])
        ensures
            final(self).id_counter() == old(self).id_counter(),
            final(self).issued_ids() == old(self).issued_ids(),
            final(self).outbound() == old(self).outbound(),
            final(self).sent_bytes() == old(self).sent_bytes(),
            final(self).queued_bytes() == old(self).queued_bytes(),
            final(self).transport() == old(self).transport(),
            chunk@.len() > 0 ==> {
                &&& final(self).inbound() == old(self).inbound() + chunk@
                &&& final(self).read_st() == old(self).read_st()
            },
            chunk@.len() == 0 ==> {
                &&& final(self).inbound() == old(self).inbound()
                &&& final(self).read_st() == (if old(self).read_st() is Pending {
                    ReadState::Closed
                } else {
                    old(self).read_st()
                })
            },
            old(self).wf() ==> final(self).wf(),
    {
        if chunk.len() == 0 {
            if let ReadState::Pending = self.read_state {
                self.read_state = ReadState::Closed;
            }
        } else {
            stream_feed(&mut self.stream, chunk);
        }
    }

    /// Assigns an id and enqueues one command exactly as `write` does, and
    /// hands back the correlation ticket for its response.  The caller
    /// flushes, then offers every inbound command to the ticket's `accept`;
    /// commands bearing any other id are discarded.
    pub fn request(&mut self, method: Method, data: &[u8]) -> (r: PendingRequest)
        requires
            old(self).id_counter() < u32::MAX,
        ensures
            r.id == old(self).id_counter() + 1,
            final(self).id_counter() == r.id,
            final(self).issued_ids() == old(self).issued_ids().push(r.id),
            final(self).outbound() == old(self).outbound()
                + frame_of(Header { id: r.id, status: 0u16, method, data_type: 0u8 }, data@),
            final(self).queued_bytes() == old(self).queued_bytes()
                + frame_of(Header { id: r.id, status: 0u16, method, data_type: 0u8 }, data@),
            final(self).sent_bytes() == old(self).sent_bytes(),
            final(self).read_st() == old(self).read_st(),
            final(self).inbound() == old(self).inbound(),
            final(self).transport() == old(self).transport(),
            old(self).wf() ==> final(self).wf(),
    {
        let id = self.write(method, data);
        PendingRequest { id }
    }
}

/// A pending request/response correlation: the id whose response is awaited.
pub struct PendingRequest {
    /// The id assigned to the request this ticket belongs to.
    pub id: u32,
}

impl PendingRequest {
    /// Decides one inbound command's fate: resolves with it exactly when its
    /// correlation id matches the request's, and discards it otherwise.
    pub fn accept(&self, command: Command) -> (r: Option<Command>)
        ensures
            command.header.id == self.id ==> r == Some(command),
            command.header.id != self.id ==> r is None,
    {
        if command.header.id == self.id {
            Some(command)
        } else {
            None
        }
    }
}

/// The method text field of the frame header at the front of the inbound
/// bytes, which the ring buffer hands over as two runs.
fn method_field(a: &Vec<u8>, b: &Vec<u8>) -> (r: Vec<u8>)
    requires
        a@.len() + b@.len() >= METHOD_FIELD_OFFSET + METHOD_FIELD_LEN,
    ensures
        r@ == (a@ + b@).subrange(
            METHOD_FIELD_OFFSET as int,
            (METHOD_FIELD_OFFSET + METHOD_FIELD_LEN) as int,
        ),
{
    let mut r: Vec<u8> = Vec::new();
    let mut i: usize = METHOD_FIELD_OFFSET;
    while i < METHOD_FIELD_OFFSET + METHOD_FIELD_LEN
        invariant
            METHOD_FIELD_OFFSET <= i <= METHOD_FIELD_OFFSET + METHOD_FIELD_LEN,
            a@.len() + b@.len() >= METHOD_FIELD_OFFSET + METHOD_FIELD_LEN,
            r@ == (a@ + b@).subrange(METHOD_FIELD_OFFSET as int, i as int),
        decreases METHOD_FIELD_OFFSET + METHOD_FIELD_LEN - i,
    {
        let x = if i < a.len() {
            a[i]
        } else {
            b[i - a.len()]
        };
        r.push(x);
        i = i + 1;
        proof {
            assert(r@ =~= (a@ + b@).subrange(METHOD_FIELD_OFFSET as int, i as int));
        }
    }
    r
}

/// The inbound bytes a client holds after feeding the given chunks in order,
/// starting from the given contents: each feed appends its chunk, exactly as
/// `LocoClient::feed` ensures for non-empty chunks.
pub open spec fn inbound_after(start: Seq<u8>, chunks: Seq<Seq<u8>>) -> Seq<u8>
    decreases chunks.len(),
{
    if chunks.len() == 0 {
        start
    } else {
        inbound_after(start + chunks.first(), chunks.drop_first())
    }
}

/// Feeding is append-only: after any sequence of feeds the inbound bytes are
/// the starting contents followed by the chunks' concatenation.
pub proof fn lemma_inbound_after_is_flatten(start: Seq<u8>, chunks: Seq<Seq<u8>>)
    ensures
        inbound_after(start, chunks) == start + chunks.flatten(),
    decreases chunks.len(),
{
    if chunks.len() == 0 {
        assert(inbound_after(start, chunks) =~= start + chunks.flatten());
    } else {
        lemma_inbound_after_is_flatten(start + chunks.first(), chunks.drop_first());
        assert(chunks.flatten() == chunks.first() + chunks.drop_first().flatten());
        assert(inbound_after(start, chunks)
            =~= start + (chunks.first() + chunks.drop_first().flatten()));
    }
}

/// Chunk-boundary independence of the inbound path: delivering the same bytes
/// in arbitrarily many arbitrarily sized transport reads leaves the stream
/// holding the same bytes, so the codec's next pull yields the same command.
pub proof fn lemma_chunking_independent(
    start: Seq<u8>,
    a: Seq<Seq<u8>>,
    b: Seq<Seq<u8>>,
)
    requires
        a.flatten() == b.flatten(),
    ensures
        inbound_after(start, a) == inbound_after(start, b),
        pull_of(inbound_after(start, a)) == pull_of(inbound_after(start, b)),
{
    lemma_inbound_after_is_flatten(start, a);
    lemma_inbound_after_is_flatten(start, b);
}

/// Ids are handed out strictly increasing, starting at 1 on a fresh adapter:
/// the k-th id issued is k + 1, so any earlier id is below any later one.
pub proof fn lemma_ids_strictly_increasing<T>(c: &LocoClient<T>, i: int, j: int)
    requires
        c.wf(),
        0 <= i < j < c.issued_ids().len(),
    ensures
        c.issued_ids()[i] < c.issued_ids()[j],
        c.issued_ids()[0] == 1,
{
}

/// The bytes handed to the transport are always an in-order prefix of the
/// bytes enqueued: draining neither reorders, drops nor invents bytes.
pub proof fn lemma_sent_prefix_of_queued<T>(c: &LocoClient<T>)
    requires
        c.wf(),
    ensures
        c.sent_bytes().len() <= c.queued_bytes().len(),
        c.sent_bytes() == c.queued_bytes().take(c.sent_bytes().len() as int),
{
    assert(c.sent_bytes() =~= c.queued_bytes().take(c.sent_bytes().len() as int));
}

/// First-in first-out flush: with the frames of two commands enqueued in
/// order, once any byte past the first frame has been handed to the
/// transport, the first frame has been handed over completely, before any
/// byte of the second.
pub proof fn lemma_flush_fifo<T>(c: &LocoClient<T>, fa: Seq<u8>, fb: Seq<u8>)
    requires
        c.wf(),
        c.queued_bytes() == fa + fb,
        c.sent_bytes().len() >= fa.len(),
    ensures
        c.sent_bytes().take(fa.len() as int) == fa,
{
    lemma_sent_prefix_of_queued(c);
    assert(c.sent_bytes().take(fa.len() as int) =~= fa);
}

} // verus!
