//! The calls this library makes into the RTMP crate, each with the contract
//! that the crate's source shows.

use vstd::prelude::*;
use rml_rtmp::chunk_io::{ChunkDeserializationError, ChunkDeserializer};
use rml_rtmp::messages::{MessageDeserializationError, MessagePayload, RtmpMessage};
use rml_rtmp::sessions::{
    ClientSession, ClientSessionConfig, ClientSessionError, ClientSessionEvent,
    ClientSessionResult, PublishRequestType,
};
use rml_rtmp::time::RtmpTimestamp;
use crate::messages::{shapes_of, ResultShape, DecodedMessage, Payload, PublishType, SessionEvent, SessionResult};
use vstd::utf8::encode_utf8;
use std::io::Cursor;
use crate::rtmp_clients::SessionConfig;

verus! {

#[verifier::external_type_specification]
#[verifier::external_body]
pub struct ExClientSession(ClientSession);

#[verifier::external_type_specification]
#[verifier::external_body]
pub struct ExClientSessionResult(ClientSessionResult);

#[verifier::external_type_specification]
#[verifier::external_body]
pub struct ExClientSessionEvent(ClientSessionEvent);

#[verifier::external_type_specification]
#[verifier::external_body]
pub struct ExClientSessionError(ClientSessionError);

#[verifier::external_type_specification]
#[verifier::external_body]
pub struct ExChunkDeserializer(ChunkDeserializer);

#[verifier::external_type_specification]
#[verifier::external_body]
pub struct ExChunkDeserializationError(ChunkDeserializationError);

#[verifier::external_type_specification]
#[verifier::external_body]
pub struct ExMessageDeserializationError(MessageDeserializationError);

/// The largest chunk size a chunk deserializer accepts.
pub open spec fn max_chunk_size_limit() -> usize {
    2147483647
}

/// The maximum size of the chunks a deserializer expects from its peer: what
/// `ChunkDeserializer::get_max_chunk_size` returns for it.
pub uninterp spec fn chunk_limit(d: ChunkDeserializer) -> usize;

/// What `MessagePayload::to_rtmp_message` makes of a payload with the given type
/// id and data, as the client reads it; `None` where decoding fails.
pub uninterp spec fn decoded_message(type_id: u8, data: Seq<u8>) -> Option<DecodedMessage>;

/// The big-endian number in the first four bytes of `data`.
pub open spec fn be_u32(data: Seq<u8>) -> int
    recommends
        data.len() >= 4,
{
    data[0] * 0x100_0000 + data[1] * 0x1_0000 + data[2] * 0x100 + data[3]
}

/// What reading `bytes` with a deserializer in state `d` gives, and the state
/// it leaves: `None` where the read panics (an arithmetic overflow in the
/// crate's chunk reader); otherwise the result (`None` for an error, else the
/// message, if one was completed) and the new state.
pub uninterp spec fn chunk_read(d: ChunkDeserializer, bytes: Seq<u8>) -> Option<
    (Option<Option<Payload>>, ChunkDeserializer),
>;

/// The state of deserializer `d` after it was told to expect chunks of `size`.
pub uninterp spec fn chunk_limit_set(d: ChunkDeserializer, size: usize) -> ChunkDeserializer;

/// How many AMF0 values `rml_amf0::deserialize` reads from `data`; `None` where
/// it fails.
pub uninterp spec fn amf0_count(data: Seq<u8>) -> Option<usize>;

/// The AMF0 data of a command message of type id 17 or 20: for 17, a leading
/// zero byte is skipped.
pub open spec fn command_data(type_id: u8, data: Seq<u8>) -> Seq<u8> {
    if type_id == 17 && data.len() > 0 && data[0] == 0 {
        data.skip(1)
    } else {
        data
    }
}

/// Whether decoding a payload panics: a command message (type id 17 or 20)
/// whose AMF0 data holds fewer than three values.
pub open spec fn command_too_short(type_id: u8, data: Seq<u8>) -> bool {
    &&& (type_id == 17 || type_id == 20)
    &&& amf0_count(command_data(type_id, data)) matches Some(n)
    &&& n < 3
}

/// The chunk deserializer a session reads the server's bytes with.
pub uninterp spec fn inbound_reader(s: ClientSession) -> ChunkDeserializer;

/// The state of a session's inbound reader after it read all of `bytes`,
/// message by message, decoding each message and taking each chunk size
/// announcement, up to the first read or decode that fails: `None` where that
/// reading panics (an overflow in the chunk reader, or a command message with
/// fewer than three AMF0 values).
pub uninterp spec fn reader_after_input(reader: ChunkDeserializer, bytes: Seq<u8>) -> Option<
    ChunkDeserializer,
>;

/// Whether the session's counters of received bytes can take `len` more bytes
/// without overflowing.
pub uninterp spec fn input_counters_fit(s: ClientSession, len: usize) -> bool;

/// The id the session gives its next transaction.
pub uninterp spec fn next_transaction(s: ClientSession) -> u32;

/// The settings a session was opened with.
pub uninterp spec fn session_settings(s: ClientSession) -> SessionConfig;

/// The application of the latest connection request the session has
/// outstanding, if any.
pub uninterp spec fn connect_request(s: ClientSession) -> Option<Seq<char>>;

/// The stream key and publish type of the latest publish request the session
/// has outstanding, if any.
pub uninterp spec fn publish_request(s: ClientSession) -> Option<(Seq<char>, PublishType)>;

/// Whether the session is disconnected, the one state in which it forms a
/// connection request.
pub uninterp spec fn connect_allowed(s: ClientSession) -> bool;

/// Whether the session is connected to an application with no stream
/// requested yet, the one state in which it forms a publish request.
pub uninterp spec fn session_connected(s: ClientSession) -> bool;

/// The shapes of the results the session gives, in order, when it takes
/// `bytes` from the server (each outbound packet, the kind of each event, the
/// type id of each message it cannot handle); `None` where taking them fails.
pub uninterp spec fn input_answer(s: ClientSession, bytes: Seq<u8>) -> Option<Seq<ResultShape>>;

/// What a session in state `s` answers to `bytes` from the server once it has
/// formed a connection request for `app`, as `input_answer` gives it.
pub uninterp spec fn answer_after_connect_request(s: ClientSession, app: Seq<char>, bytes: Seq<u8>) -> Option<
    Seq<ResultShape>,
>;

/// Whether a text fits an AMF0 string: at most 65535 bytes of UTF-8.
pub open spec fn amf0_string_fits(text: Seq<char>) -> bool {
    encode_utf8(text).len() <= 65535
}

/// Whether a connection request for `app_name` with settings `c` can be
/// written: every string it carries fits an AMF0 string.
pub open spec fn connect_request_fits(c: SessionConfig, app_name: Seq<char>) -> bool {
    &&& amf0_string_fits(app_name)
    &&& amf0_string_fits(c.flash_version@)
    &&& c.tc_url matches Some(url) ==> amf0_string_fits(url@)
}

/// A session result as plain values.
pub open spec fn plain_result(r: ClientSessionResult) -> SessionResult {
    match result_parts_of(r) {
        ResultParts::Outbound(bytes) => SessionResult::OutboundResponse(bytes),
        ResultParts::Event(e) => SessionResult::RaisedEvent(event_kind_of(e)),
        ResultParts::Unhandleable(type_id) => SessionResult::UnhandleableMessageReceived { type_id },
    }
}

/// Session results as plain values, in order.
pub open spec fn plain_results(rs: Seq<ClientSessionResult>) -> Seq<SessionResult> {
    rs.map_values(|r: ClientSessionResult| plain_result(r))
}

/// A new session with its initial results, or why it could not be opened.
pub type SessionStart = Result<(ClientSession, Vec<ClientSessionResult>), ClientSessionError>;

/// The parts of a session result: outbound chunk bytes, a raised event, or the
/// type id of a message the session could not handle.
pub enum ResultParts {
    Outbound(Vec<u8>),
    Event(ClientSessionEvent),
    Unhandleable(u8),
}

/// Opens a client session with the given settings.
///
/// Trusted: calls `ClientSession::new`. Its source always returns `Ok`, with an
/// empty list of initial results, and a session that is disconnected, whose
/// first transaction id is 1, whose received-byte count is 0 with no
/// acknowledgement window set (so its counters take any number of bytes), and
/// whose inbound reader is a fresh chunk deserializer, expecting chunks of 128
/// bytes. The session also holds the time of its creation, of which nothing is
/// claimed.
#[verifier::external_body]
pub(crate) fn client_session_new(config: &SessionConfig) -> (r: SessionStart)
    ensures
        r is Ok,
        r matches Ok(started) ==> started.1.len() == 0,
        r matches Ok(started) ==> session_settings(started.0) == *config,
        r matches Ok(started) ==> next_transaction(started.0) == 1,
        r matches Ok(started) ==> connect_allowed(started.0) && !session_connected(started.0),
        r matches Ok(started) ==> forall|n: usize|
            #![trigger input_counters_fit(started.0, n)]
            input_counters_fit(started.0, n),
        r matches Ok(started) ==> chunk_limit(inbound_reader(started.0)) == 128,
{
    let c = config.clone();
    ClientSession::new(ClientSessionConfig {
        flash_version: c.flash_version,
        playback_buffer_length_ms: c.playback_buffer_length_ms,
        window_ack_size: c.window_ack_size,
        chunk_size: c.chunk_size,
        tc_url: c.tc_url,
    })
}

/// Asks the session for a connection request to the application `app_name`.
///
/// Trusted: calls `ClientSession::request_connection`. The source refuses
/// unless the session is disconnected, and otherwise fails only where a string
/// of the request (the application, the flash version, the tcUrl) is too long
/// for AMF0. It records an outstanding connection request for `app_name`
/// before it succeeds, returns an outbound packet when it does, and leaves the
/// session's state, inbound reader, received-byte counters and settings alone.
/// The packet carries the session clock's time, so nothing is claimed of its
/// bytes. What the session then answers to the server's bytes depends on the
/// session before the call, the application and those bytes alone (the
/// handlers read the outstanding transactions, not the packet's time), which
/// `answer_after_connect_request` names. Where the session is disconnected it
/// takes a transaction id, which overflows at the largest one: left out by
/// `requires`. While disconnected the session serializes in chunks of
/// 128 bytes, so its configured chunk size plays no part.
#[verifier::external_body]
pub(crate) fn request_connection(session: &mut ClientSession, app_name: String) -> (r: Result<
    ClientSessionResult,
    ClientSessionError,
>)
    requires
        connect_allowed(*old(session)) ==> next_transaction(*old(session)) < u32::MAX,
    ensures
        r is Ok <==> (connect_allowed(*old(session)) && connect_request_fits(
            session_settings(*old(session)),
            app_name@,
        )),
        r is Ok ==> forall|b: Seq<u8>|
            #![trigger input_answer(*final(session), b)]
            input_answer(*final(session), b) == answer_after_connect_request(
                *old(session),
                app_name@,
                b,
            ),
        connect_allowed(*final(session)) == connect_allowed(*old(session)),
        session_connected(*final(session)) == session_connected(*old(session)),
        next_transaction(*final(session)) == next_transaction(*old(session)) || next_transaction(
            *final(session),
        ) == next_transaction(*old(session)) + 1,
        forall|n: usize|
            #![trigger input_counters_fit(*final(session), n)]
            input_counters_fit(*final(session), n) == input_counters_fit(*old(session), n),
        r is Ok ==> connect_request(*final(session)) == Some(app_name@),
        r matches Ok(packet) ==> result_parts_of(packet) is Outbound,
        inbound_reader(*final(session)) == inbound_reader(*old(session)),
        session_settings(*final(session)) == session_settings(*old(session)),
{
    session.request_connection(app_name)
}

/// Hands bytes received from the server to the session.
///
/// Trusted: calls `ClientSession::handle_input`, on bytes it takes without
/// panicking: reading them in full does not panic (the session reads no more
/// than that), its received-byte counters take them, and a configured chunk
/// size of 0, with which serializing a response never ends, is left out. The
/// packets it returns carry the session clock's time, so nothing is claimed of
/// their bytes; whether it succeeds and the shapes of its results depend on
/// the session and the bytes alone, which `input_answer` names. Where it succeeds
/// it has read every message, so its inbound reader ends in the state the
/// bytes lead it to; where a handler fails part way, the reader's state is
/// left unsaid. It takes no transaction id.
#[verifier::external_body]
pub(crate) fn handle_input(session: &mut ClientSession, bytes: &[u8]) -> (r: Result<
    Vec<ClientSessionResult>,
    ClientSessionError,
>)
    requires
        reader_after_input(inbound_reader(*old(session)), bytes@) is Some,
        input_counters_fit(*old(session), bytes@.len() as usize),
        session_settings(*old(session)).chunk_size > 0,
    ensures
        r is Ok <==> input_answer(*old(session), bytes@) is Some,
        r matches Ok(rs) ==> input_answer(*old(session), bytes@) == Some(
            shapes_of(plain_results(rs@)),
        ),
        r is Ok ==> Some(inbound_reader(*final(session))) == reader_after_input(
            inbound_reader(*old(session)),
            bytes@,
        ),
        session_settings(*final(session)) == session_settings(*old(session)),
        next_transaction(*final(session)) == next_transaction(*old(session)),
{
    session.handle_input(bytes)
}

/// Asks the session for a request to publish on `stream_key`.
///
/// Trusted: calls `ClientSession::request_publishing` with the publish type
/// converted one for one. The source refuses unless the session is connected
/// with no stream requested, and its request carries no string of the
/// caller's, so nothing else makes it fail; the packet carries the session
/// clock's time, so nothing is claimed of its bytes. It records an outstanding
/// publish request for the key and type before it succeeds, returns an
/// outbound packet when it does, and leaves the session's state, its inbound
/// reader, received-byte counters and settings alone. Where the
/// session is connected it takes a transaction id and serializes a packet, so
/// there the largest id and a configured chunk size of 0 are left out by
/// `requires`.
#[verifier::external_body]
pub(crate) fn request_publishing(
    session: &mut ClientSession,
    stream_key: String,
    kind: PublishType,
) -> (r: Result<ClientSessionResult, ClientSessionError>)
    requires
        next_transaction(*old(session)) < u32::MAX,
        session_settings(*old(session)).chunk_size > 0,
    ensures
        next_transaction(*final(session)) == next_transaction(*old(session)) || next_transaction(
            *final(session),
        ) == next_transaction(*old(session)) + 1,
        forall|n: usize|
            #![trigger input_counters_fit(*final(session), n)]
            input_counters_fit(*final(session), n) == input_counters_fit(*old(session), n),
        r is Ok <==> session_connected(*old(session)),
        connect_allowed(*final(session)) == connect_allowed(*old(session)),
        session_connected(*final(session)) == session_connected(*old(session)),
        r is Ok ==> publish_request(*final(session)) == Some((stream_key@, kind)),
        r matches Ok(packet) ==> result_parts_of(packet) is Outbound,
        inbound_reader(*final(session)) == inbound_reader(*old(session)),
        session_settings(*final(session)) == session_settings(*old(session)),
{
    let kind = match kind {
        PublishType::Live => PublishRequestType::Live,
        PublishType::Record => PublishRequestType::Record,
        PublishType::Append => PublishRequestType::Append,
    };
    session.request_publishing(stream_key, kind)
}

/// The parts a session result is taken apart into.
pub uninterp spec fn result_parts_of(r: ClientSessionResult) -> ResultParts;

/// The kind of a session event.
pub uninterp spec fn event_kind_of(e: ClientSessionEvent) -> SessionEvent;

/// Takes a session result apart, one arm per variant.
///
/// Trusted: a conversion of `ClientSessionResult`; the packet's bytes are moved
/// out, the unhandled payload is reduced to its type id. It depends on the
/// result alone, which `result_parts_of` names.
#[verifier::external_body]
pub(crate) fn result_parts(r: ClientSessionResult) -> (parts: ResultParts)
    ensures
        parts == result_parts_of(r),
{
    match r {
        ClientSessionResult::OutboundResponse(packet) => ResultParts::Outbound(packet.bytes),
        ClientSessionResult::RaisedEvent(event) => ResultParts::Event(event),
        ClientSessionResult::UnhandleableMessageReceived(p) => ResultParts::Unhandleable(p.type_id),
    }
}

/// The kind of a session event, one arm per variant.
///
/// Trusted: a conversion of `ClientSessionEvent` that drops the variants'
/// fields; it depends on the event alone, which `event_kind_of` names.
#[verifier::external_body]
pub(crate) fn event_kind(e: ClientSessionEvent) -> (kind: SessionEvent)
    ensures
        kind == event_kind_of(e),
{
    match e {
        ClientSessionEvent::ConnectionRequestAccepted => SessionEvent::ConnectionRequestAccepted,
        ClientSessionEvent::ConnectionRequestRejected { .. } => SessionEvent::ConnectionRequestRejected,
        ClientSessionEvent::PlaybackRequestAccepted => SessionEvent::PlaybackRequestAccepted,
        ClientSessionEvent::PublishRequestAccepted => SessionEvent::PublishRequestAccepted,
        ClientSessionEvent::StreamMetadataReceived { .. } => SessionEvent::StreamMetadataReceived,
        ClientSessionEvent::VideoDataReceived { .. } => SessionEvent::VideoDataReceived,
        ClientSessionEvent::AudioDataReceived { .. } => SessionEvent::AudioDataReceived,
        ClientSessionEvent::UnhandleableAmf0Command { .. } => SessionEvent::UnhandleableAmf0Command,
        ClientSessionEvent::UnknownTransactionResultReceived { .. } => SessionEvent::UnknownTransactionResultReceived,
        ClientSessionEvent::UnhandleableOnStatusCode { .. } => SessionEvent::UnhandleableOnStatusCode,
        ClientSessionEvent::AcknowledgementReceived { .. } => SessionEvent::AcknowledgementReceived,
        ClientSessionEvent::PingResponseReceived { .. } => SessionEvent::PingResponseReceived,
    }
}

/// A fresh chunk deserializer.
///
/// Trusted: calls `ChunkDeserializer::new`, which the crate documents and
/// implements as expecting chunks of at most 128 bytes.
#[verifier::external_body]
pub(crate) fn new_deserializer() -> (d: ChunkDeserializer)
    ensures
        chunk_limit(d) == 128,
{
    ChunkDeserializer::new()
}

/// Feeds bytes to the deserializer and takes the next complete message, if any.
///
/// Trusted: calls `ChunkDeserializer::get_next_message`, on bytes it reads
/// without panicking. What it returns and the state it leaves depend on the
/// state before and the bytes alone, which `chunk_read` names; it leaves the
/// expected chunk size as it was (the source changes it in
/// `set_max_chunk_size` alone).
#[verifier::external_body]
pub(crate) fn next_message(d: &mut ChunkDeserializer, bytes: &[u8]) -> (r: Result<
    Option<Payload>,
    ChunkDeserializationError,
>)
    requires
        chunk_read(*old(d), bytes@) is Some,
    ensures
        chunk_limit(*final(d)) == chunk_limit(*old(d)),
        *final(d) == chunk_read(*old(d), bytes@).unwrap().1,
        r is Ok <==> chunk_read(*old(d), bytes@).unwrap().0 is Some,
        r matches Ok(m) ==> chunk_read(*old(d), bytes@).unwrap().0 == Some(m),
{
    d.get_next_message(bytes).map(|o| o.map(|p| Payload {
        timestamp: p.timestamp.value,
        type_id: p.type_id,
        message_stream_id: p.message_stream_id,
        data: p.data.to_vec(),
    }))
}

/// Tells the deserializer the chunk size the peer now sends.
///
/// Trusted: calls `ChunkDeserializer::set_max_chunk_size`, whose source refuses
/// sizes above 2147483647 and otherwise stores the size.
#[verifier::external_body]
pub(crate) fn set_max_chunk_size(d: &mut ChunkDeserializer, size: usize) -> (r: Result<
    (),
    ChunkDeserializationError,
>)
    ensures
        r is Ok <==> size <= max_chunk_size_limit(),
        r is Ok ==> chunk_limit(*final(d)) == size,
        r is Ok ==> *final(d) == chunk_limit_set(*old(d), size),
        r is Err ==> *final(d) == *old(d),
        r is Err ==> chunk_limit(*final(d)) == chunk_limit(*old(d)),
{
    d.set_max_chunk_size(size)
}

/// Counts the AMF0 values in `data`.
///
/// Trusted: calls `rml_amf0::deserialize`, which reads values until the data
/// ends and fails rather than panics on bad data; the count is named
/// `amf0_count`.
#[verifier::external_body]
pub(crate) fn count_amf0_values(data: &[u8]) -> (r: Option<usize>)
    ensures
        r == amf0_count(data@),
{
    rml_amf0::deserialize(&mut Cursor::new(data)).ok().map(|values| values.len())
}

/// Decodes a payload into a message.
///
/// Trusted: calls `MessagePayload::to_rtmp_message`, which panics on a command
/// message with fewer than three AMF0 values, left out by `requires`, on the same payload and
/// converts the message one arm per variant. Its result is named by
/// `decoded_message`; the source shows besides that type id 1 is a chunk size
/// announcement, read as a big-endian number from the first four bytes and
/// refused when shorter or above 2147483647, and that no other type id gives one.
#[verifier::external_body]
pub(crate) fn decode_message(payload: &Payload) -> (r: Result<DecodedMessage, MessageDeserializationError>)
    requires
        !command_too_short(payload.type_id, payload.data@),
    ensures
        r is Ok <==> decoded_message(payload.type_id, payload.data@) is Some,
        r matches Ok(m) ==> decoded_message(payload.type_id, payload.data@) == Some(m),
        payload.type_id == 1 ==> (r is Ok <==> (payload.data@.len() >= 4 && be_u32(payload.data@) <= 2147483647)),
        r matches Ok(m) ==> (m is SetChunkSize <==> payload.type_id == 1),
        r matches Ok(m) ==> (m is SetChunkSize ==> m->size == be_u32(payload.data@)),
{
    let p = MessagePayload { timestamp: RtmpTimestamp::new(payload.timestamp), type_id: payload.type_id, message_stream_id: payload.message_stream_id, data: payload.data.clone().into() };
    p.to_rtmp_message().map(|m| match m {
        RtmpMessage::Unknown { .. } => DecodedMessage::Unknown,
        RtmpMessage::Abort { .. } => DecodedMessage::Abort,
        RtmpMessage::Acknowledgement { .. } => DecodedMessage::Acknowledgement,
        RtmpMessage::Amf0Command { .. } => DecodedMessage::Amf0Command,
        RtmpMessage::Amf0Data { .. } => DecodedMessage::Amf0Data,
        RtmpMessage::AudioData { .. } => DecodedMessage::AudioData,
        RtmpMessage::SetChunkSize { size } => DecodedMessage::SetChunkSize { size },
        RtmpMessage::SetPeerBandwidth { .. } => DecodedMessage::SetPeerBandwidth,
        RtmpMessage::UserControl { .. } => DecodedMessage::UserControl,
        RtmpMessage::VideoData { .. } => DecodedMessage::VideoData,
        RtmpMessage::WindowAcknowledgement { .. } => DecodedMessage::WindowAcknowledgement,
    })
}

} // verus!
