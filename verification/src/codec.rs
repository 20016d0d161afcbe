//! Trusted boundary around the `loco_protocol` codec.
//!
//! The codec owns the two byte buffers of the protocol: a sink holding the
//! bytes of every frame enqueued for sending, and a stream holding the bytes
//! received but not yet decoded into a command.  Verified code never parses
//! those buffers itself; it sees their contents as abstract byte sequences
//! and drives the codec only through the wrappers below.

use vstd::prelude::*;
use loco_protocol::command::Method;
use loco_protocol::command::client::{LocoSink, LocoStream, StreamState};

verus! {

#[verifier::external_type_specification]
#[verifier::external_body]
pub struct ExMethod(Method);

#[verifier::external_type_specification]
#[verifier::external_body]
pub struct ExLocoSink(LocoSink);

#[verifier::external_type_specification]
#[verifier::external_body]
pub struct ExLocoStream(LocoStream);

/// Bytes of the fixed frame header the codec absorbs before it knows a
/// frame's declared payload size.
pub const FRAME_HEADER_LEN: usize = 22;

/// Where the method text field starts inside the fixed frame header.
pub const METHOD_FIELD_OFFSET: usize = 6;

/// Bytes of the method text field inside the fixed frame header.
pub const METHOD_FIELD_LEN: usize = 11;

/// Header of one protocol command: correlation id, status code, operation
/// identifier and payload type tag.  The method is the codec's own opaque
/// operation identifier; this layer carries it through untouched.
#[derive(Debug)]
pub struct Header {
    pub id: u32,
    pub status: u16,
    pub method: Method,
    pub data_type: u8,
}

/// One decoded protocol command: a header and its payload.
#[derive(Debug)]
pub struct Command {
    pub header: Header,
    pub data: Vec<u8>,
}

/// Mathematical model of a decoded command: the header with the payload as a
/// byte sequence.
pub ghost struct CommandModel {
    pub header: Header,
    pub data: Seq<u8>,
}

impl View for Command {
    type V = CommandModel;

    open spec fn view(&self) -> CommandModel {
        CommandModel { header: self.header, data: self.data@ }
    }
}

/// The contents of a sink's write buffer, front first.
pub uninterp spec fn sink_bytes(s: LocoSink) -> Seq<u8>;

/// The wire frame of one command: what serializing a header and payload
/// appends to a sink's write buffer.  A function of the two alone.
pub uninterp spec fn frame_of(header: Header, data: Seq<u8>) -> Seq<u8>;

/// The bytes a stream holds that are not yet part of a delivered command:
/// the bytes of any absorbed partial header followed by its read buffer.
pub uninterp spec fn stream_rem(s: LocoStream) -> Seq<u8>;

/// Whether the stream has absorbed every complete frame header at the front
/// of its held bytes; decoding leaves the stream in this shape.
pub uninterp spec fn stream_norm(s: LocoStream) -> bool;

/// Whether the stream has absorbed a frame header and is waiting for that
/// frame's payload.  While it holds, the front of the held bytes is that
/// header's own serialization.
pub uninterp spec fn stream_absorbed(s: LocoStream) -> bool;

/// Whether a byte sequence is valid text.
pub uninterp spec fn utf8_ok(b: Seq<u8>) -> bool;

/// The held bytes begin with a complete frame header the codec cannot
/// decode: its method field is not text.
pub open spec fn header_malformed(b: Seq<u8>) -> bool {
    b.len() >= FRAME_HEADER_LEN && !utf8_ok(b.subrange(
        METHOD_FIELD_OFFSET as int,
        (METHOD_FIELD_OFFSET + METHOD_FIELD_LEN) as int,
    ))
}

/// The command, if any, that decoding yields from the given held bytes.
pub uninterp spec fn pull_of(b: Seq<u8>) -> Option<CommandModel>;

/// The bytes left held after one decoding attempt on the given held bytes.
pub uninterp spec fn pull_rest(b: Seq<u8>) -> Seq<u8>;

/// The declared payload size in the frame header at the front of the given
/// held bytes.
pub uninterp spec fn declared_size_of(b: Seq<u8>) -> u32;

/// Relies on `LocoSink::new`: a fresh sink's write buffer is empty.
#[verifier::external_body]
pub(crate) fn sink_new() -> (r: LocoSink)
    ensures
        sink_bytes(r) == Seq::<u8>::empty(),
{
    LocoSink::new()
}

/// Relies on `LocoSink::send`: serializing a command appends its frame,
/// a function of header and payload alone, to the back of the write buffer.
#[verifier::external_body]
pub(crate) fn sink_send(s: &mut LocoSink, header: Header, data: &[u8])
    ensures
        sink_bytes(*final(s)) == sink_bytes(*old(s)) + frame_of(header, data@),
{
    s.send(loco_protocol::command::Command {
        header: loco_protocol::command::Header {
            id: header.id,
            status: header.status,
            method: header.method,
            data_type: header.data_type,
        },
        data,
    });
}

/// Relies on `VecDeque::len` on the sink's write buffer.
#[verifier::external_body]
pub(crate) fn sink_len(s: &LocoSink) -> (r: usize)
    ensures
        r == sink_bytes(*s).len(),
{
    s.write_buffer.len()
}

/// Relies on `VecDeque::as_slices` on the sink's write buffer: the two runs
/// of the ring buffer concatenate, front first, to the buffer's contents.
#[verifier::external_body]
pub(crate) fn sink_slices(s: &LocoSink) -> (r: (Vec<u8>, Vec<u8>))
    ensures
        r.0@ + r.1@ == sink_bytes(*s),
{
    let (a, b) = s.write_buffer.as_slices();
    (a.to_vec(), b.to_vec())
}

/// Relies on `VecDeque::drain` on the sink's write buffer: removes exactly
/// the first `n` bytes and keeps the rest in order.
#[verifier::external_body]
pub(crate) fn sink_drain(s: &mut LocoSink, n: usize)
    requires
        n <= sink_bytes(*old(s)).len(),
    ensures
        sink_bytes(*final(s)) == sink_bytes(*old(s)).skip(n as int),
{
    s.write_buffer.drain(..n);
}

/// Relies on `LocoStream::new`: a fresh stream holds no bytes and no partial
/// header.
#[verifier::external_body]
pub(crate) fn stream_new() -> (r: LocoStream)
    ensures
        stream_rem(r) == Seq::<u8>::empty(),
        stream_norm(r),
{
    LocoStream::new()
}

/// Relies on `VecDeque::extend` on the stream's read buffer: appends the
/// chunk to the back of the held bytes.
#[verifier::external_body]
pub(crate) fn stream_feed(s: &mut LocoStream, chunk: &[u8])
    ensures
        stream_rem(*final(s)) == stream_rem(*old(s)) + chunk@,
{
    s.read_buffer.extend(chunk);
}

/// Relies on `LocoStream::state`: it reports whether a frame header has been
/// absorbed.  An absorbed header was decoded from the front held bytes, so at
/// least a header's worth is held and its method field — which sits at the
/// same place in those bytes — decoded as text.
#[verifier::external_body]
pub(crate) fn stream_header_absorbed(s: &LocoStream) -> (r: bool)
    ensures
        r == stream_absorbed(*s),
        r ==> stream_rem(*s).len() >= FRAME_HEADER_LEN
            && !header_malformed(stream_rem(*s)),
{
    matches!(s.state(), StreamState::Header(_))
}

/// Relies on `VecDeque::len` on the stream's read buffer: with no absorbed
/// header the read buffer is exactly the held bytes.
#[verifier::external_body]
pub(crate) fn stream_buffer_len(s: &LocoStream) -> (r: usize)
    ensures
        !stream_absorbed(*s) ==> r == stream_rem(*s).len(),
{
    s.read_buffer.len()
}

/// Relies on `VecDeque::as_slices` on the stream's read buffer: with no
/// absorbed header the two runs of the ring buffer concatenate, front first,
/// to the held bytes.
#[verifier::external_body]
pub(crate) fn stream_slices(s: &LocoStream) -> (r: (Vec<u8>, Vec<u8>))
    ensures
        !stream_absorbed(*s) ==> r.0@ + r.1@ == stream_rem(*s),
{
    let (a, b) = s.read_buffer.as_slices();
    (a.to_vec(), b.to_vec())
}

/// Relies on `core::str::from_utf8`: it accepts exactly the byte sequences
/// that are valid text, a function of the bytes alone.
#[verifier::external_body]
pub(crate) fn utf8_check(b: &[u8]) -> (r: bool)
    ensures
        r == utf8_ok(b@),
{
    core::str::from_utf8(b).is_ok()
}

/// Relies on `LocoStream::read`: it yields a command exactly when the held
/// bytes begin with a complete frame, consuming that frame; both the result
/// and the bytes kept are functions of the held bytes alone.  A miss absorbs
/// every complete header at the front and keeps every held byte.  On held
/// bytes whose front frame header does not decode — its method field is not
/// text — the codec stops the process instead of returning; the `requires`
/// admits no such stream, and `header_malformed` lets callers test for it
/// over the bytes first.
#[verifier::external_body]
pub(crate) fn stream_read(s: &mut LocoStream) -> (r: Option<Command>)
    requires
        stream_absorbed(*old(s)) || !header_malformed(stream_rem(*old(s))),
    ensures
        match r {
            Some(c) => {
                &&& pull_of(stream_rem(*old(s))) == Some(c@)
                &&& stream_rem(*final(s)) == pull_rest(stream_rem(*old(s)))
            },
            None => {
                &&& pull_of(stream_rem(*old(s))) is None
                &&& stream_rem(*final(s)) == stream_rem(*old(s))
                &&& stream_norm(*final(s))
            },
        },
{
    match s.read() {
        Some(c) => Some(Command {
            header: Header {
                id: c.header.id,
                status: c.header.status,
                method: c.header.method,
                data_type: c.header.data_type,
            },
            data: c.data.into_vec(),
        }),
        None => None,
    }
}

/// Relies on `LocoStream::state`: once the codec has absorbed a frame header
/// it reports that header's declared payload size, a function of the front of
/// the held bytes; on a normalized stream a header has been absorbed exactly
/// when at least a full header's worth of bytes is held.
#[verifier::external_body]
pub(crate) fn stream_pending_size(s: &LocoStream) -> (r: Option<u32>)
    ensures
        r matches Some(ds) ==> {
            &&& ds == declared_size_of(stream_rem(*s))
            &&& stream_rem(*s).len() >= FRAME_HEADER_LEN
        },
        stream_norm(*s) ==> (r is Some <==> stream_rem(*s).len() >= FRAME_HEADER_LEN),
{
    match s.state() {
        StreamState::Header(raw) => Some(raw.data_size),
        _ => None,
    }
}

} // verus!
