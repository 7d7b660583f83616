//! Plain values for what flows between an RTMP session, the chunk
//! deserializer and the client logic.

use vstd::prelude::*;

verus! {

/// An RTMP message payload as it comes out of the chunk deserializer.
pub struct Payload {
    pub timestamp: u32,
    pub type_id: u8,
    pub message_stream_id: u32,
    pub data: Vec<u8>,
}

/// What the client reads of a decoded RTMP message: its kind, and for a
/// chunk size announcement the announced size.
#[derive(PartialEq, Eq, Structural, Clone, Copy, Debug)]
pub enum DecodedMessage {
    Unknown,
    Abort,
    Acknowledgement,
    Amf0Command,
    Amf0Data,
    AudioData,
    SetChunkSize { size: u32 },
    SetPeerBandwidth,
    UserControl,
    VideoData,
    WindowAcknowledgement,
}

/// The kind of an event raised by a client session.
#[derive(PartialEq, Eq, Structural, Clone, Copy, Debug)]
pub enum SessionEvent {
    ConnectionRequestAccepted,
    ConnectionRequestRejected,
    PlaybackRequestAccepted,
    PublishRequestAccepted,
    StreamMetadataReceived,
    VideoDataReceived,
    AudioDataReceived,
    UnhandleableAmf0Command,
    UnknownTransactionResultReceived,
    UnhandleableOnStatusCode,
    AcknowledgementReceived,
    PingResponseReceived,
}

/// One result of a client session operation.
pub enum SessionResult {
    /// Chunk bytes to send to the server.
    OutboundResponse(Vec<u8>),
    /// An event for the client to react to.
    RaisedEvent(SessionEvent),
    /// A message the session could not handle, by its type id.
    UnhandleableMessageReceived { type_id: u8 },
}

/// What a session result is, without the bytes of a packet: an outbound
/// packet, an event of a given kind, or an unhandled message of a given type.
pub enum ResultShape {
    Outbound,
    Event(SessionEvent),
    Unhandleable(u8),
}

/// The shape of one session result.
pub open spec fn shape_of(r: SessionResult) -> ResultShape {
    match r {
        SessionResult::OutboundResponse(_) => ResultShape::Outbound,
        SessionResult::RaisedEvent(e) => ResultShape::Event(e),
        SessionResult::UnhandleableMessageReceived { type_id } => ResultShape::Unhandleable(type_id),
    }
}

/// The shapes of session results, in order.
pub open spec fn shapes_of(results: Seq<SessionResult>) -> Seq<ResultShape> {
    results.map_values(|r: SessionResult| shape_of(r))
}

/// The events among result shapes, in order.
pub open spec fn shape_events(shapes: Seq<ResultShape>) -> Seq<SessionEvent>
    decreases shapes.len(),
{
    if shapes.len() == 0 {
        Seq::empty()
    } else {
        let prev = shape_events(shapes.drop_last());
        match shapes.last() {
            ResultShape::Event(e) => prev.push(e),
            _ => prev,
        }
    }
}

/// The events of results are the events of their shapes.
pub proof fn lemma_events_of_shapes(results: Seq<SessionResult>)
    ensures
        shape_events(shapes_of(results)) == raised_events(results),
    decreases results.len(),
{
    if results.len() > 0 {
        lemma_events_of_shapes(results.drop_last());
        assert(shapes_of(results).drop_last() =~= shapes_of(results.drop_last()));
    }
}

/// How a publish request asks the server to treat the stream.
#[derive(PartialEq, Eq, Structural, Clone, Copy, Debug)]
pub enum PublishType {
    Live,
    Record,
    Append,
}

/// The events raised by `results`, in order.
pub open spec fn raised_events(results: Seq<SessionResult>) -> Seq<SessionEvent>
    decreases results.len(),
{
    if results.len() == 0 {
        Seq::empty()
    } else {
        let prev = raised_events(results.drop_last());
        match results.last() {
            SessionResult::RaisedEvent(e) => prev.push(e),
            _ => prev,
        }
    }
}

/// The number of outbound responses among `results`.
pub open spec fn outbound_count(results: Seq<SessionResult>) -> nat
    decreases results.len(),
{
    if results.len() == 0 {
        0
    } else {
        let prev = outbound_count(results.drop_last());
        match results.last() {
            SessionResult::OutboundResponse(_) => prev + 1,
            _ => prev,
        }
    }
}

/// The chunk size in force after the messages `msgs` have been read, starting
/// from `start`: the size the last chunk size announcement carries, if any.
pub open spec fn chunk_size_after(msgs: Seq<DecodedMessage>, start: usize) -> usize
    decreases msgs.len(),
{
    if msgs.len() == 0 {
        start
    } else {
        match msgs.last() {
            DecodedMessage::SetChunkSize { size } => size as usize,
            _ => chunk_size_after(msgs.drop_last(), start),
        }
    }
}

} // verus!
