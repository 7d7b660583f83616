//! Properties that span several operations of the library.

use vstd::prelude::*;
use rml_rtmp::chunk_io::ChunkDeserializer;
use crate::messages::{
    chunk_size_after, outbound_count, raised_events, shape_events, shape_of, DecodedMessage,
    Payload, ResultShape, SessionEvent, SessionResult,
};
use rml_rtmp::sessions::ClientSessionResult;
use crate::rtmp_io::{
    chunk_limit_set, chunk_read, command_too_short, decoded_message, event_kind_of,
    plain_result, plain_results, result_parts_of, ResultParts,
};
use crate::connection::{ReadResult, ConnectionError, Readiness};
use crate::rtmp_client::{
    connect_outcome_of, next_event_step, read_back_all, read_back_step, stopped, ConnectOutcome,
    EventProgress, EventResult, EventStep, ReadBack, RtmpError,
};
use crate::rtmp_clients::ConfigModel;

verus! {

/// Reading the tcUrl after setting it gives back what was set, and setting it
/// leaves every other setting as it was.
pub proof fn law_url_read_after_write(m: ConfigModel, url: Seq<char>)
    ensures
        m.with_url(url).tc_url == Some(url),
        m.with_url(url).stream_key == m.stream_key,
        m.with_url(url).chunk_size == m.chunk_size,
        m.with_url(url).flash_version == m.flash_version,
        m.with_url(url).window_ack_size == m.window_ack_size,
        m.with_url(url).playback_buffer_length_ms == m.playback_buffer_length_ms,
{
}

/// Reading the stream key after setting or clearing it gives back what was
/// set, and setting it leaves every other setting as it was.
pub proof fn law_stream_key_read_after_write(m: ConfigModel, key: Option<Seq<char>>)
    ensures
        m.with_stream_key(key).stream_key == key,
        m.with_stream_key(key).tc_url == m.tc_url,
        m.with_stream_key(key).chunk_size == m.chunk_size,
        m.with_stream_key(key).flash_version == m.flash_version,
        m.with_stream_key(key).window_ack_size == m.window_ack_size,
        m.with_stream_key(key).playback_buffer_length_ms == m.playback_buffer_length_ms,
{
}

/// Each numeric setting reads back as written and leaves the other settings
/// as they were.
pub proof fn law_numeric_settings_read_after_write(m: ConfigModel, n: u32)
    ensures
        m.with_chunk_size(n).chunk_size == n,
        m.with_chunk_size(n) == (ConfigModel { chunk_size: n, ..m }),
        m.with_window_ack_size(n).window_ack_size == n,
        m.with_window_ack_size(n) == (ConfigModel { window_ack_size: n, ..m }),
        m.with_playback_buffer_len(n).playback_buffer_length_ms == n,
        m.with_playback_buffer_len(n) == (ConfigModel { playback_buffer_length_ms: n, ..m }),
{
}

/// The flash version reads back as written and leaves the other settings as
/// they were.
pub proof fn law_flash_version_read_after_write(m: ConfigModel, version: Seq<char>)
    ensures
        m.with_flash_version(version).flash_version == version,
        m.with_flash_version(version) == (ConfigModel { flash_version: version, ..m }),
{
}

/// Of two writes of the same setting, the later one wins.
pub proof fn law_last_write_wins(
    m: ConfigModel,
    a: Seq<char>,
    b: Seq<char>,
    ka: Option<Seq<char>>,
    kb: Option<Seq<char>>,
    x: u32,
    y: u32,
)
    ensures
        m.with_url(a).with_url(b) == m.with_url(b),
        m.with_stream_key(ka).with_stream_key(kb) == m.with_stream_key(kb),
        m.with_flash_version(a).with_flash_version(b) == m.with_flash_version(b),
        m.with_chunk_size(x).with_chunk_size(y) == m.with_chunk_size(y),
        m.with_window_ack_size(x).with_window_ack_size(y) == m.with_window_ack_size(y),
        m.with_playback_buffer_len(x).with_playback_buffer_len(y) == m.with_playback_buffer_len(y),
{
}

/// Writes of different settings do not interfere: their order does not matter.
pub proof fn law_independent_writes_commute(
    m: ConfigModel,
    url: Seq<char>,
    key: Option<Seq<char>>,
    size: u32,
)
    ensures
        m.with_url(url).with_stream_key(key) == m.with_stream_key(key).with_url(url),
        m.with_url(url).with_chunk_size(size) == m.with_chunk_size(size).with_url(url),
        m.with_stream_key(key).with_chunk_size(size) == m.with_chunk_size(size).with_stream_key(key),
{
}

/// The events of two batches of session results, split one after the other,
/// are the events of both batches split at once.
pub proof fn law_events_of_batches(a: Seq<SessionResult>, b: Seq<SessionResult>)
    ensures
        raised_events(a + b) == raised_events(a) + raised_events(b),
        outbound_count(a + b) == outbound_count(a) + outbound_count(b),
    decreases b.len(),
{
    if b.len() == 0 {
        assert(a + b == a);
        assert(raised_events(a) + raised_events(b) == raised_events(a));
    } else {
        law_events_of_batches(a, b.drop_last());
        assert((a + b).drop_last() == a + b.drop_last());
        assert((a + b).last() == b.last());
    }
}

/// The chunk size after reading two batches of messages, one after the
/// other, is the chunk size after reading both at once.
pub proof fn law_chunk_size_of_batches(a: Seq<DecodedMessage>, b: Seq<DecodedMessage>, start: usize)
    ensures
        chunk_size_after(a + b, start) == chunk_size_after(b, chunk_size_after(a, start)),
    decreases b.len(),
{
    if b.len() == 0 {
        assert(a + b == a);
    } else {
        law_chunk_size_of_batches(a, b.drop_last(), start);
        assert((a + b).drop_last() == a + b.drop_last());
        assert((a + b).last() == b.last());
    }
}

/// Messages that announce no chunk size leave the chunk size as it was; after
/// an announcement of `size`, the chunk size is `size`.
pub proof fn law_chunk_size_follows_announcements(msgs: Seq<DecodedMessage>, start: usize, size: u32)
    ensures
        (forall|i: int| 0 <= i < msgs.len() ==> !(#[trigger] msgs[i] is SetChunkSize))
            ==> chunk_size_after(msgs, start) == start,
        chunk_size_after(msgs.push(DecodedMessage::SetChunkSize { size }), start) == size as usize,
    decreases msgs.len(),
{
    assert(msgs.push(DecodedMessage::SetChunkSize { size }).last() == DecodedMessage::SetChunkSize { size });
    if msgs.len() > 0 {
        law_chunk_size_follows_announcements(msgs.drop_last(), start, size);
        if forall|i: int| 0 <= i < msgs.len() ==> !(#[trigger] msgs[i] is SetChunkSize) {
            assert(forall|i: int| 0 <= i < msgs.drop_last().len() ==> msgs.drop_last()[i] == msgs[i]);
            assert(!(msgs[msgs.len() - 1] is SetChunkSize));
        }
    }
}

/// A read-back step does not look at the responses already read: with more of
/// them in front, it gives the same state with the same responses in front.
proof fn lemma_step_ignores_earlier_responses(
    st: ReadBack,
    pre: Seq<(Payload, DecodedMessage)>,
    r: SessionResult,
)
    ensures
        read_back_step(ReadBack { responses: pre + st.responses, ..st }, r) == (ReadBack {
            responses: pre + read_back_step(st, r).responses,
            ..read_back_step(st, r)
        }),
{
    assert forall|e: (Payload, DecodedMessage)| #[trigger] (pre + st.responses).push(e) == pre
        + st.responses.push(e) by {
        assert((pre + st.responses).push(e) =~= pre + st.responses.push(e));
    }
}

/// Reading back two batches of session results one after the other, the
/// second through the deserializer the first leaves, is reading back both at
/// once: the same outcome, the same deserializer state, and the responses of
/// the first batch followed by those of the second. This holds where the first
/// batch read back in full.
pub proof fn law_read_back_of_batches(d: ChunkDeserializer, a: Seq<SessionResult>, b: Seq<SessionResult>)
    requires
        !stopped(read_back_all(d, a)),
    ensures
        read_back_all(d, a + b).ok == read_back_all(read_back_all(d, a).reader, b).ok,
        read_back_all(d, a + b).clean == read_back_all(read_back_all(d, a).reader, b).clean,
        read_back_all(d, a + b).reader == read_back_all(read_back_all(d, a).reader, b).reader,
        read_back_all(d, a + b).responses == read_back_all(d, a).responses + read_back_all(
            read_back_all(d, a).reader,
            b,
        ).responses,
    decreases b.len(),
{
    let ra = read_back_all(d, a);
    if b.len() == 0 {
        assert(a + b == a);
        assert(ra.responses + Seq::<(Payload, DecodedMessage)>::empty() == ra.responses);
    } else {
        law_read_back_of_batches(d, a, b.drop_last());
        assert((a + b).drop_last() == a + b.drop_last());
        assert((a + b).last() == b.last());
        let rb = read_back_all(ra.reader, b.drop_last());
        assert(read_back_all(d, a + b.drop_last()) == (ReadBack {
            responses: ra.responses + rb.responses,
            ..rb
        }));
        lemma_step_ignores_earlier_responses(rb, ra.responses, b.last());
    }
}

/// Serving a socket event writes at most once, then reads at most once, and
/// then ends: a write is asked for only on a writable socket, a read only on a
/// readable one, and once the read is done the event is served.
pub proof fn law_event_serving_is_bounded(
    readiness: Readiness,
    connection_found: bool,
    ok: bool,
    read: Result<ReadResult, ConnectionError>,
)
    ensures
        next_event_step(readiness, EventProgress::Begin { connection_found }) is Write
            ==> readiness.writable,
        next_event_step(readiness, EventProgress::Begin { connection_found }) is Read
            ==> readiness.readable && !readiness.writable,
        !(next_event_step(readiness, EventProgress::WriteFinished { ok }) is Write),
        next_event_step(readiness, EventProgress::WriteFinished { ok }) is Read ==> readiness.readable,
        next_event_step(readiness, EventProgress::ReadFinished { result: read }) is Finish,
{
}

/// Serving a socket event on a found connection writes first exactly when the
/// socket is writable, and otherwise reads exactly when it is readable; an
/// event on no connection does nothing. After a write that worked, a readable
/// socket is read and otherwise serving ends with nothing; every failed write
/// or read disconnects, and a read that worked ends serving with what it read.
pub proof fn law_event_steps(readiness: Readiness, ok: bool, read: Result<ReadResult, ConnectionError>)
    ensures
        next_event_step(readiness, EventProgress::Begin { connection_found: false }) == (EventStep::Finish {
            result: EventResult::Nothing,
        }),
        next_event_step(readiness, EventProgress::Begin { connection_found: true }) is Write
            <==> readiness.writable,
        next_event_step(readiness, EventProgress::Begin { connection_found: true }) is Read
            <==> !readiness.writable && readiness.readable,
        !readiness.writable && !readiness.readable ==> next_event_step(
            readiness,
            EventProgress::Begin { connection_found: true },
        ) == (EventStep::Finish { result: EventResult::Nothing }),
        next_event_step(readiness, EventProgress::WriteFinished { ok: false }) == (EventStep::Finish {
            result: EventResult::DisconnectConnection,
        }),
        next_event_step(readiness, EventProgress::WriteFinished { ok: true }) is Read <==> readiness.readable,
        !readiness.readable ==> next_event_step(readiness, EventProgress::WriteFinished { ok: true }) == (
        EventStep::Finish { result: EventResult::Nothing }),
        read is Err ==> next_event_step(readiness, EventProgress::ReadFinished { result: read }) == (
        EventStep::Finish { result: EventResult::DisconnectConnection }),
        read matches Ok(got) ==> next_event_step(readiness, EventProgress::ReadFinished { result: read })
            == (EventStep::Finish { result: EventResult::ReadResult(got) }),
{
}

/// Converting a session result keeps what it carries: an outbound packet's
/// bytes, the kind of a raised event, the type id of an unhandled message.
pub proof fn law_results_keep_their_parts(r: ClientSessionResult)
    ensures
        result_parts_of(r) matches ResultParts::Outbound(bytes) ==> plain_result(r)
            == SessionResult::OutboundResponse(bytes),
        result_parts_of(r) matches ResultParts::Event(e) ==> plain_result(r) == SessionResult::RaisedEvent(
            event_kind_of(e),
        ),
        result_parts_of(r) matches ResultParts::Unhandleable(type_id) ==> plain_result(r)
            == (SessionResult::UnhandleableMessageReceived { type_id }),
{
}

/// Session results are converted one by one, in order.
pub proof fn law_results_convert_in_order(rs: Seq<ClientSessionResult>, r: ClientSessionResult)
    ensures
        plain_results(rs).len() == rs.len(),
        forall|i: int| 0 <= i < rs.len() ==> #[trigger] plain_results(rs)[i] == plain_result(rs[i]),
        plain_results(Seq::empty()) == Seq::<SessionResult>::empty(),
        plain_results(rs.push(r)) == plain_results(rs).push(plain_result(r)),
{
    assert(plain_results(Seq::empty()) =~= Seq::<SessionResult>::empty());
    assert(plain_results(rs.push(r)) =~= plain_results(rs).push(plain_result(r)));
}

/// The events among results are the raised events, each kept as raised and in
/// order; packets and unhandled messages raise none. The same holds of their
/// shapes, and a result's shape keeps its event.
pub proof fn law_events_are_kept(rs: Seq<SessionResult>, r: SessionResult, sh: Seq<ResultShape>, e: SessionEvent)
    ensures
        raised_events(Seq::empty()) == Seq::<SessionEvent>::empty(),
        r matches SessionResult::RaisedEvent(k) ==> raised_events(rs.push(r)) == raised_events(rs).push(k),
        !(r is RaisedEvent) ==> raised_events(rs.push(r)) == raised_events(rs),
        shape_events(Seq::empty()) == Seq::<SessionEvent>::empty(),
        shape_events(sh.push(ResultShape::Event(e))) == shape_events(sh).push(e),
        shape_events(sh.push(ResultShape::Outbound)) == shape_events(sh),
        forall|t: u8| #[trigger] shape_events(sh.push(ResultShape::Unhandleable(t))) == shape_events(sh),
        r matches SessionResult::RaisedEvent(k) ==> shape_of(r) == ResultShape::Event(k),
        r is OutboundResponse ==> shape_of(r) == ResultShape::Outbound,
        r matches SessionResult::UnhandleableMessageReceived { type_id } ==> shape_of(r)
            == ResultShape::Unhandleable(type_id),
{
    assert(rs.push(r).drop_last() == rs);
    assert(sh.push(ResultShape::Event(e)).drop_last() == sh);
    assert(sh.push(ResultShape::Outbound).drop_last() == sh);
    assert forall|t: u8| #[trigger] shape_events(sh.push(ResultShape::Unhandleable(t))) == shape_events(sh) by {
        assert(sh.push(ResultShape::Unhandleable(t)).drop_last() == sh);
    }
}

/// A connection is accepted exactly when the session takes the server's
/// answer and its events are exactly one acceptance; the session failing on
/// the answer refuses the response; any other events (a rejection among them)
/// are an error, never an acceptance.
pub proof fn law_only_a_single_acceptance_connects(answer: Option<Seq<ResultShape>>)
    ensures
        connect_outcome_of(answer) == Ok::<ConnectOutcome, RtmpError>(ConnectOutcome::Accepted) <==> (
        answer matches Some(shapes) && shape_events(shapes) == seq![SessionEvent::ConnectionRequestAccepted]),
        connect_outcome_of(answer) == Ok::<ConnectOutcome, RtmpError>(ConnectOutcome::ResponseRefused)
            <==> answer is None,
        connect_outcome_of(answer) == Err::<ConnectOutcome, RtmpError>(RtmpError::UnexpectedConnectEvents)
            <==> (answer matches Some(shapes) && shape_events(shapes) != seq![
            SessionEvent::ConnectionRequestAccepted,
        ]),
        connect_outcome_of(answer) != Ok::<ConnectOutcome, RtmpError>(ConnectOutcome::RequestRefused),
{
}

/// Reading back starts from the deserializer as given, with every packet so far
/// read, and takes the results one at a time, in order.
pub proof fn law_read_back_goes_in_order(d: ChunkDeserializer, rs: Seq<SessionResult>, r: SessionResult)
    ensures
        read_back_all(d, Seq::empty()) == (ReadBack {
            ok: true,
            clean: true,
            responses: Seq::empty(),
            reader: d,
        }),
        read_back_all(d, rs.push(r)) == read_back_step(read_back_all(d, rs), r),
{
    assert(rs.push(r).drop_last() == rs);
}

/// One step of reading back. Once stopped it changes nothing, and only
/// outbound packets are read. A packet that the deserializer reads as a whole
/// payload whose message decodes (and is not a command with fewer than three
/// AMF0 values) is kept with its message, whatever kind of message it is, and a
/// chunk size announcement then sets the deserializer to that size. A read that
/// would panic makes reading unclean; a read that gives no whole payload, a
/// command that is too short or a payload that does not decode is a failure,
/// leaving the responses as they were.
pub proof fn law_read_back_step(st: ReadBack, r: SessionResult)
    ensures
        stopped(st) ==> read_back_step(st, r) == st,
        !(r is OutboundResponse) ==> read_back_step(st, r) == st,
        !stopped(st) ==> (r matches SessionResult::OutboundResponse(bytes) ==> {
            let next = read_back_step(st, r);
            &&& next.responses.len() >= st.responses.len()
            &&& chunk_read(st.reader, bytes@) is None ==> !next.clean && next.responses == st.responses
            &&& chunk_read(st.reader, bytes@) matches Some(read) ==> {
                &&& next.clean
                &&& next.reader == match read.0 {
                    Some(Some(p)) => match decoded_message(p.type_id, p.data@) {
                        Some(DecodedMessage::SetChunkSize { size }) => if command_too_short(
                            p.type_id,
                            p.data@,
                        ) {
                            read.1
                        } else {
                            chunk_limit_set(read.1, size as usize)
                        },
                        _ => read.1,
                    },
                    _ => read.1,
                }
                &&& next.ok <==> (read.0 matches Some(Some(p)) && !command_too_short(p.type_id, p.data@)
                    && decoded_message(p.type_id, p.data@) is Some)
                &&& !next.ok ==> next.responses == st.responses
                &&& read.0 matches Some(Some(p)) ==> (!command_too_short(p.type_id, p.data@) ==> (
                decoded_message(p.type_id, p.data@) matches Some(m) ==> next.responses
                    == st.responses.push((p, m))))
            }
        }),
{
}

} // verus!
