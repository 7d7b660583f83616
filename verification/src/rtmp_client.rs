//! The client side of an RTMP publishing session: processing of session
//! results, the connection steps, and the reaction to socket events.

use vstd::prelude::*;
use rml_rtmp::chunk_io::ChunkDeserializer;
use rml_rtmp::sessions::{ClientSession, ClientSessionResult};
use crate::connection::{ConnectionError, ReadResult, Readiness};
use crate::messages::{
    chunk_size_after, lemma_events_of_shapes, outbound_count, raised_events, shape_events,
    shapes_of, DecodedMessage, Payload, PublishType, ResultShape, SessionEvent, SessionResult,
};
use crate::rtmp_clients::{default_app, settings_agree, MyClientSessionConfig};
use vstd::string::StringSliceAdditionalSpecFns;
use vstd::utf8::encode_utf8;
use crate::rtmp_io::{
    chunk_limit, chunk_limit_set, chunk_read, client_session_new, command_data, command_too_short,
    connect_request, count_amf0_values, decode_message, decoded_message, event_kind,
    event_kind_of, handle_input, inbound_reader, input_counters_fit, new_deserializer, next_message,
    next_transaction, publish_request, plain_result, plain_results, connect_allowed,
    connect_request_fits, input_answer, session_connected, answer_after_connect_request,
    reader_after_input, request_connection, request_publishing, result_parts, result_parts_of,
    session_settings, set_max_chunk_size, ResultParts,
};
use vstd::slice::slice_subrange;

verus! {

/// Why connecting and publishing failed.
#[derive(PartialEq, Eq, Structural, Clone, Copy, Debug)]
pub enum RtmpError {
    /// The session refused an operation.
    RtmpErrorUnknown,
    /// The server's name resolved to no address.
    SocketAddrFailure,
    /// The first write of the handshake failed.
    HandshakeStartFailure,
    /// A packet of the session's own could not be read back as a message.
    ChunkDecodeFailure,
    /// The server's answer to the connection request was not exactly one
    /// acceptance.
    UnexpectedConnectEvents,
}

/// The decoded messages of a list of responses.
pub open spec fn response_messages(responses: Seq<(Payload, DecodedMessage)>) -> Seq<DecodedMessage> {
    responses.map_values(|r: (Payload, DecodedMessage)| r.1)
}

/// Whether every response holds the message its payload decodes to.
pub open spec fn responses_decoded(responses: Seq<(Payload, DecodedMessage)>) -> bool {
    forall|i: int|
        0 <= i < responses.len() ==> decoded_message(#[trigger] responses[i].0.type_id, responses[i].0.data@)
            == Some(responses[i].1)
}

/// How far reading session results back through a chunk deserializer has
/// got: whether every packet so far read back and decoded (`ok`), whether no
/// read would have panicked (`clean`), the payloads read with their decoded
/// messages, and the deserializer's state.
pub struct ReadBack {
    pub ok: bool,
    pub clean: bool,
    pub responses: Seq<(Payload, DecodedMessage)>,
    pub reader: ChunkDeserializer,
}

/// Whether reading back has stopped, by a failure or a read that panics.
pub open spec fn stopped(st: ReadBack) -> bool {
    !st.ok || !st.clean
}

/// Reads one session result back: an outbound packet is read from the
/// deserializer and must give a whole message that decodes; a chunk size
/// announcement then sets the deserializer to that size. Other results leave
/// everything as it was.
pub open spec fn read_back_step(st: ReadBack, r: SessionResult) -> ReadBack {
    if stopped(st) {
        st
    } else {
        match r {
            SessionResult::OutboundResponse(bytes) => match chunk_read(st.reader, bytes@) {
                None => ReadBack { clean: false, ..st },
                Some(read) => match read.0 {
                    Some(Some(p)) => if command_too_short(p.type_id, p.data@) {
                        ReadBack { ok: false, reader: read.1, ..st }
                    } else {
                        match decoded_message(p.type_id, p.data@) {
                            Some(m) => ReadBack {
                                ok: true,
                                clean: true,
                                responses: st.responses.push((p, m)),
                                reader: match m {
                                    DecodedMessage::SetChunkSize { size } => chunk_limit_set(
                                        read.1,
                                        size as usize,
                                    ),
                                    _ => read.1,
                                },
                            },
                            None => ReadBack { ok: false, reader: read.1, ..st },
                        }
                    },
                    _ => ReadBack { ok: false, reader: read.1, ..st },
                },
            },
            _ => st,
        }
    }
}

/// Reads the results `rs` back, in order, through a deserializer in state `d`.
pub open spec fn read_back_all(d: ChunkDeserializer, rs: Seq<SessionResult>) -> ReadBack
    decreases rs.len(),
{
    if rs.len() == 0 {
        ReadBack { ok: true, clean: true, responses: Seq::empty(), reader: d }
    } else {
        read_back_step(read_back_all(d, rs.drop_last()), rs.last())
    }
}

/// Once reading back has stopped, the later results change nothing.
proof fn lemma_stopped_stays(d: ChunkDeserializer, rs: Seq<SessionResult>, k: int, n: int)
    requires
        0 <= k <= n <= rs.len(),
        stopped(read_back_all(d, rs.take(k))),
    ensures
        read_back_all(d, rs.take(n)) == read_back_all(d, rs.take(k)),
    decreases n - k,
{
    if n > k {
        lemma_stopped_stays(d, rs, k, n - 1);
        assert(rs.take(n).drop_last() == rs.take(n - 1));
    }
}

/// The client logic of a publishing session.
pub struct MyClientSession {}

impl MyClientSession {
    /// The client logic; it keeps no state of its own.
    pub fn new() -> Self {
        Self {}
    }

    /// Converts the results of a session call into plain results, in order.
    fn convert_results(results: Vec<ClientSessionResult>) -> (out: Vec<SessionResult>)
        ensures
            out@ == plain_results(results@),
    {
        let ghost all = results@;
        let mut results = results;
        let mut out: Vec<SessionResult> = Vec::new();
        while results.len() > 0
            invariant
                out.len() + results.len() == all.len(),
                results@ == all.subrange(out.len() as int, all.len() as int),
                out@ == plain_results(all.take(out.len() as int)),
            decreases results.len(),
        {
            let ghost k = out.len() as int;
            let r = results.remove(0);
            assert(r == all[k]);
            let converted = match result_parts(r) {
                ResultParts::Outbound(bytes) => SessionResult::OutboundResponse(bytes),
                ResultParts::Event(e) => SessionResult::RaisedEvent(event_kind(e)),
                ResultParts::Unhandleable(type_id) => SessionResult::UnhandleableMessageReceived {
                    type_id,
                },
            };
            assert(converted == plain_result(r));
            out.push(converted);
            assert(plain_results(all.take(k + 1)) =~= plain_results(all.take(k)).push(plain_result(all[k])));
            assert(results@ =~= all.subrange(k + 1, all.len() as int));
        }
        assert(all.take(all.len() as int) =~= all);
        out
    }

    /// Splits session results into the outbound messages, read back through
    /// `deserializer`, and the raised events. Reading back a chunk size
    /// announcement sets the deserializer to that chunk size, which keeps it in
    /// step with the packets that follow. Every packet must read back as one
    /// message that decodes.
    pub fn split_results(
        &mut self,
        deserializer: &mut ChunkDeserializer,
        results: Vec<SessionResult>,
    ) -> (res: (Vec<(Payload, DecodedMessage)>, Vec<SessionEvent>))
        requires
            read_back_all(*old(deserializer), results@).clean,
            read_back_all(*old(deserializer), results@).ok,
        ensures
            *final(deserializer) == read_back_all(*old(deserializer), results@).reader,
            res.0@ == read_back_all(*old(deserializer), results@).responses,
            res.1@ == raised_events(results@),
            res.0.len() == outbound_count(results@),
            responses_decoded(res.0@),
            chunk_limit(*final(deserializer)) == chunk_size_after(
                response_messages(res.0@),
                chunk_limit(*old(deserializer)),
            ),
    {
        match self.try_split_results(deserializer, results) {
            Ok(split) => split,
            Err(_) => {
                // Every packet reads back, so no error comes.
                assert(false);
                (Vec::new(), Vec::new())
            },
        }
    }

    /// Like `split_results`, for results that may not read back: a packet that
    /// does not read back as one message that decodes is an error.
    pub fn try_split_results(
        &mut self,
        deserializer: &mut ChunkDeserializer,
        results: Vec<SessionResult>,
    ) -> (res: Result<(Vec<(Payload, DecodedMessage)>, Vec<SessionEvent>), RtmpError>)
        requires
            read_back_all(*old(deserializer), results@).clean,
        ensures
            res is Ok <==> read_back_all(*old(deserializer), results@).ok,
            *final(deserializer) == read_back_all(*old(deserializer), results@).reader,
            res matches Ok(split) ==> {
                &&& split.0@ == read_back_all(*old(deserializer), results@).responses
                &&& split.1@ == raised_events(results@)
                &&& split.0.len() == outbound_count(results@)
                &&& responses_decoded(split.0@)
                &&& chunk_limit(*final(deserializer)) == chunk_size_after(
                    response_messages(split.0@),
                    chunk_limit(*old(deserializer)),
                )
            },
            res matches Err(e) ==> e == RtmpError::ChunkDecodeFailure,
    {
        let mut responses: Vec<(Payload, DecodedMessage)> = Vec::new();
        let mut events: Vec<SessionEvent> = Vec::new();
        let ghost start = chunk_limit(*deserializer);
        let ghost d0 = *deserializer;
        let ghost all = results@;
        let mut i: usize = 0;
        while i < results.len()
            invariant
                0 <= i <= results.len(),
                all == results@,
                d0 == *old(deserializer),
                read_back_all(d0, all).clean,
                read_back_all(d0, all.take(i as int)).ok,
                read_back_all(d0, all.take(i as int)).clean,
                read_back_all(d0, all.take(i as int)).responses == responses@,
                read_back_all(d0, all.take(i as int)).reader == *deserializer,
                events@ == raised_events(all.take(i as int)),
                responses.len() == outbound_count(all.take(i as int)),
                responses_decoded(responses@),
                chunk_limit(*deserializer) == chunk_size_after(response_messages(responses@), start),
                start == chunk_limit(d0),
            decreases results.len() - i,
        {
            assert(all.take(i + 1).drop_last() == all.take(i as int));
            assert(all.take(i + 1).last() == all[i as int]);
            let ghost before = read_back_all(d0, all.take(i as int));
            match &results[i] {
                SessionResult::OutboundResponse(bytes) => {
                    proof {
                        if chunk_read(*deserializer, bytes@) is None {
                            lemma_stopped_stays(d0, all, i + 1, all.len() as int);
                            assert(all.take(all.len() as int) == all);
                        }
                    }
                    let read = next_message(deserializer, bytes.as_slice());
                    let payload = match read {
                        Ok(Some(p)) => p,
                        _ => {
                            proof {
                                lemma_stopped_stays(d0, all, i + 1, all.len() as int);
                                assert(all.take(all.len() as int) == all);
                            }
                            return Err(RtmpError::ChunkDecodeFailure);
                        },
                    };
                    if payload.type_id == 17 || payload.type_id == 20 {
                        let len = payload.data.len();
                        let data = if payload.type_id == 17 && len > 0 && payload.data[0] == 0 {
                            slice_subrange(payload.data.as_slice(), 1, len)
                        } else {
                            payload.data.as_slice()
                        };
                        assert(data@ == command_data(payload.type_id, payload.data@));
                        match count_amf0_values(data) {
                            Some(n) => {
                                if n < 3 {
                                    proof {
                                        lemma_stopped_stays(d0, all, i + 1, all.len() as int);
                                        assert(all.take(all.len() as int) == all);
                                    }
                                    return Err(RtmpError::ChunkDecodeFailure);
                                }
                            },
                            None => {},
                        }
                    }
                    let message = match decode_message(&payload) {
                        Ok(m) => m,
                        Err(_) => {
                            proof {
                                lemma_stopped_stays(d0, all, i + 1, all.len() as int);
                                assert(all.take(all.len() as int) == all);
                            }
                            return Err(RtmpError::ChunkDecodeFailure);
                        },
                    };
                    match message {
                        DecodedMessage::SetChunkSize { size } => {
                            match set_max_chunk_size(deserializer, size as usize) {
                                Ok(()) => {},
                                Err(_) => {
                                    // A decoded announcement never exceeds the
                                    // largest size the deserializer takes.
                                    assert(false);
                                    return Err(RtmpError::ChunkDecodeFailure);
                                },
                            }
                        },
                        _ => {},
                    }
                    let ghost prev = responses@;
                    responses.push((payload, message));
                    assert(response_messages(responses@).drop_last() == response_messages(prev));
                },
                SessionResult::RaisedEvent(e) => {
                    events.push(*e);
                },
                SessionResult::UnhandleableMessageReceived { .. } => {},
            }
            i = i + 1;
        }
        assert(all.take(results.len() as int) == all);
        Ok((responses, events))
    }
}

impl MyClientSession {
    /// Reads the session's results back through `deserializer`, which keeps it
    /// up to date with the chunk sizes the session announces. Every packet
    /// must read back as one message that decodes.
    pub fn consume_results(&mut self, deserializer: &mut ChunkDeserializer, results: Vec<ClientSessionResult>)
        requires
            read_back_all(*old(deserializer), plain_results(results@)).clean,
            read_back_all(*old(deserializer), plain_results(results@)).ok,
        ensures
            *final(deserializer) == read_back_all(*old(deserializer), plain_results(results@)).reader,
    {
        let converted = Self::convert_results(results);
        let _ = self.split_results(deserializer, converted);
    }

    /// Like `consume_results`, for results that may not read back: a packet
    /// that does not read back as one message that decodes is an error.
    pub fn try_consume_results(
        &mut self,
        deserializer: &mut ChunkDeserializer,
        results: Vec<ClientSessionResult>,
    ) -> (res: Result<(), RtmpError>)
        requires
            read_back_all(*old(deserializer), plain_results(results@)).clean,
        ensures
            res is Ok <==> read_back_all(*old(deserializer), plain_results(results@)).ok,
            *final(deserializer) == read_back_all(*old(deserializer), plain_results(results@)).reader,
            res matches Err(e) ==> e == RtmpError::ChunkDecodeFailure,
    {
        let converted = Self::convert_results(results);
        match self.try_split_results(deserializer, converted) {
            Ok(_) => Ok(()),
            Err(e) => Err(e),
        }
    }

    /// Checks the events of the server's answer to a connection request:
    /// exactly one event, the acceptance of the connection.
    pub fn check_connect_events(events: &Vec<SessionEvent>) -> (res: Result<(), RtmpError>)
        ensures
            res is Ok <==> (events@.len() == 1 && events@[0] == SessionEvent::ConnectionRequestAccepted),
            res matches Err(e) ==> e == RtmpError::UnexpectedConnectEvents,
    {
        if events.len() == 1 && events[0] == SessionEvent::ConnectionRequestAccepted {
            Ok(())
        } else {
            Err(RtmpError::UnexpectedConnectEvents)
        }
    }

    /// The events among session results, in order.
    fn events_of(results: &Vec<SessionResult>) -> (events: Vec<SessionEvent>)
        ensures
            events@ == raised_events(results@),
    {
        let mut events: Vec<SessionEvent> = Vec::new();
        let mut i: usize = 0;
        while i < results.len()
            invariant
                0 <= i <= results.len(),
                events@ == raised_events(results@.take(i as int)),
            decreases results.len() - i,
        {
            assert(results@.take(i + 1).drop_last() == results@.take(i as int));
            match &results[i] {
                SessionResult::RaisedEvent(e) => events.push(*e),
                _ => {},
            }
            i = i + 1;
        }
        assert(results@.take(results.len() as int) == results@);
        events
    }

    /// Sends the connection request for `app_name` and hands the server's
    /// `response` to the session, whose answer must be exactly one acceptance
    /// where the request goes out. The session refusing the request or the
    /// response is reported. Returns, with the outcome, the session's results as
    /// plain values, to be read back: the request's packet, then the answer's
    /// results.
    pub fn perform_successful_connect(
        &mut self,
        app_name: String,
        session: &mut ClientSession,
        response: &[u8],
    ) -> (res: (ConnectOutcome, Vec<SessionResult>))
        requires
            connect_allowed(*old(session)) ==> next_transaction(*old(session)) < u32::MAX,
            connect_request_succeeds(*old(session), app_name@) ==> {
                &&& reader_after_input(inbound_reader(*old(session)), response@) is Some
                &&& input_counters_fit(*old(session), response@.len() as usize)
                &&& session_settings(*old(session)).chunk_size > 0
                &&& connect_outcome_of(answer_after_connect_request(*old(session), app_name@, response@)) is Ok
            },
        ensures
            session_settings(*final(session)) == session_settings(*old(session)),
            next_transaction(*final(session)) == next_transaction(*old(session)) || next_transaction(
                *final(session),
            ) == next_transaction(*old(session)) + 1,
            res.0 == ConnectOutcome::RequestRefused <==> !connect_request_succeeds(*old(session), app_name@),
            res.0 == ConnectOutcome::RequestRefused ==> {
                &&& res.1.len() == 0
                &&& inbound_reader(*final(session)) == inbound_reader(*old(session))
                &&& connect_allowed(*final(session)) == connect_allowed(*old(session))
            },
            connect_request_succeeds(*old(session), app_name@) ==> connect_outcome_of(
                answer_after_connect_request(*old(session), app_name@, response@),
            ) == Ok::<ConnectOutcome, RtmpError>(res.0),
            connect_request_succeeds(*old(session), app_name@) ==> shapes_of(res.1@) == seq![
                ResultShape::Outbound,
            ] + answer_shapes(answer_after_connect_request(*old(session), app_name@, response@)),
            res.0 == ConnectOutcome::Accepted ==> Some(inbound_reader(*final(session)))
                == reader_after_input(inbound_reader(*old(session)), response@),
            connect_request_succeeds(*old(session), app_name@) ==> exists|requested: ClientSession|
                #![trigger connect_request(requested)]
                connect_request(requested) == Some(app_name@) && inbound_reader(requested)
                    == inbound_reader(*old(session)),
    {
        match self.try_perform_successful_connect(app_name, session, response) {
            Ok(done) => done,
            Err(_) => {
                // The answer is one acceptance wherever the request goes out.
                assert(false);
                (ConnectOutcome::RequestRefused, Vec::new())
            },
        }
    }

    /// Like `perform_successful_connect`, for any answer: an answer other than
    /// exactly one acceptance is an error.
    pub fn try_perform_successful_connect(
        &mut self,
        app_name: String,
        session: &mut ClientSession,
        response: &[u8],
    ) -> (res: Result<(ConnectOutcome, Vec<SessionResult>), RtmpError>)
        requires
            connect_allowed(*old(session)) ==> next_transaction(*old(session)) < u32::MAX,
            connect_request_succeeds(*old(session), app_name@) ==> {
                &&& reader_after_input(inbound_reader(*old(session)), response@) is Some
                &&& input_counters_fit(*old(session), response@.len() as usize)
                &&& session_settings(*old(session)).chunk_size > 0
            },
        ensures
            session_settings(*final(session)) == session_settings(*old(session)),
            next_transaction(*final(session)) == next_transaction(*old(session)) || next_transaction(
                *final(session),
            ) == next_transaction(*old(session)) + 1,
            (res matches Ok(done) && done.0 == ConnectOutcome::RequestRefused)
                <==> !connect_request_succeeds(*old(session), app_name@),
            res matches Ok(done) ==> (done.0 == ConnectOutcome::RequestRefused ==> {
                &&& done.1.len() == 0
                &&& inbound_reader(*final(session)) == inbound_reader(*old(session))
                &&& connect_allowed(*final(session)) == connect_allowed(*old(session))
            }),
            connect_request_succeeds(*old(session), app_name@) ==> connect_outcome_of(
                answer_after_connect_request(*old(session), app_name@, response@),
            ) == (match res {
                Ok(done) => Ok(done.0),
                Err(e) => Err(e),
            }),
            connect_request_succeeds(*old(session), app_name@) ==> (res matches Ok(done)
                ==> shapes_of(done.1@) == seq![ResultShape::Outbound] + answer_shapes(
                answer_after_connect_request(*old(session), app_name@, response@),
            )),
            res matches Ok(done) ==> (done.0 == ConnectOutcome::Accepted ==> Some(
                inbound_reader(*final(session)),
            ) == reader_after_input(inbound_reader(*old(session)), response@)),
            connect_request_succeeds(*old(session), app_name@) ==> exists|requested: ClientSession|
                #![trigger connect_request(requested)]
                connect_request(requested) == Some(app_name@) && inbound_reader(requested)
                    == inbound_reader(*old(session)),
    {
        let ghost before = *session;
        match request_connection(session, app_name) {
            Ok(result) => {
                let ghost requested = *session;
                let mut results: Vec<ClientSessionResult> = Vec::new();
                results.push(result);
                let mut converted = Self::convert_results(results);
                assert(converted@ =~= seq![plain_result(result)]);
                assert(shapes_of(converted@) =~= seq![ResultShape::Outbound]);
                assert(connect_request(requested) == Some(app_name@));
                assert(input_answer(requested, response@) == answer_after_connect_request(
                    before,
                    app_name@,
                    response@,
                ));
                match handle_input(session, response) {
                    Ok(answer) => {
                        let mut answer = Self::convert_results(answer);
                        let events = Self::events_of(&answer);
                        proof {
                            lemma_events_of_shapes(answer@);
                        }
                        assert(input_answer(requested, response@) == Some(shapes_of(answer@)));
                        assert(shape_events(shapes_of(answer@)) == events@);
                        match Self::check_connect_events(&events) {
                            Ok(()) => {
                                assert(events@ =~= seq![SessionEvent::ConnectionRequestAccepted]);
                                let ghost answer_view = answer@;
                                let ghost first = converted@;
                                converted.append(&mut answer);
                                assert(converted@ =~= first + answer_view);
                                assert(shapes_of(converted@) =~= shapes_of(first) + shapes_of(
                                    answer_view,
                                ));
                                Ok((ConnectOutcome::Accepted, converted))
                            },
                            Err(e) => {
                                proof {
                                    if events@ == seq![SessionEvent::ConnectionRequestAccepted] {
                                        assert(events@.len() == 1);
                                        assert(events@[0] == SessionEvent::ConnectionRequestAccepted);
                                    }
                                }
                                Err(e)
                            },
                        }
                    },
                    Err(_) => {
                        assert(seq![ResultShape::Outbound] + answer_shapes(None) =~= seq![
                            ResultShape::Outbound,
                        ]);
                        Ok((ConnectOutcome::ResponseRefused, converted))
                    },
                }
            },
            Err(_) => Ok((ConnectOutcome::RequestRefused, Vec::new())),
        }
    }

    /// Asks the session to publish live on `stream_key`, which it does only
    /// while connected with no stream requested. Returns the session's result,
    /// to be read back.
    pub fn request_publish(&mut self, session: &mut ClientSession, stream_key: String) -> (res:
        Result<Vec<ClientSessionResult>, RtmpError>)
        requires
            next_transaction(*old(session)) < u32::MAX,
            session_settings(*old(session)).chunk_size > 0,
        ensures
            res matches Ok(rs) ==> rs.len() == 1 && publish_request(*final(session)) == Some(
                (stream_key@, PublishType::Live),
            ) && result_parts_of(rs@[0]) is Outbound,
            res is Ok <==> session_connected(*old(session)),
            res matches Err(e) ==> e == RtmpError::RtmpErrorUnknown,
            connect_allowed(*final(session)) == connect_allowed(*old(session)),
            session_connected(*final(session)) == session_connected(*old(session)),
            inbound_reader(*final(session)) == inbound_reader(*old(session)),
            session_settings(*final(session)) == session_settings(*old(session)),
    {
        match request_publishing(session, stream_key, PublishType::Live) {
            Ok(result) => {
                let mut results: Vec<ClientSessionResult> = Vec::new();
                results.push(result);
                Ok(results)
            },
            Err(_) => Err(RtmpError::RtmpErrorUnknown),
        }
    }
}

/// Whether the session forms a connection request for `app`: it is
/// disconnected and every string of the request fits AMF0.
pub open spec fn connect_request_succeeds(s: ClientSession, app: Seq<char>) -> bool {
    connect_allowed(s) && connect_request_fits(session_settings(s), app)
}

/// The shapes of an answer's results; none where the session failed on it.
pub open spec fn answer_shapes(answer: Option<Seq<ResultShape>>) -> Seq<ResultShape> {
    match answer {
        Some(shapes) => shapes,
        None => Seq::empty(),
    }
}

/// How the session's answer to a connection request ends: refused where it
/// cannot take the server's bytes, accepted where they raise exactly the
/// acceptance of the connection, and otherwise an error.
pub open spec fn connect_outcome_of(answer: Option<Seq<ResultShape>>) -> Result<ConnectOutcome, RtmpError> {
    match answer {
        None => Ok(ConnectOutcome::ResponseRefused),
        Some(shapes) => if shape_events(shapes) == seq![SessionEvent::ConnectionRequestAccepted] {
            Ok(ConnectOutcome::Accepted)
        } else {
            Err(RtmpError::UnexpectedConnectEvents)
        },
    }
}

/// How a connection request went, where neither side broke the protocol.
#[derive(PartialEq, Eq, Structural, Clone, Copy, Debug)]
pub enum ConnectOutcome {
    /// The server accepted the connection.
    Accepted,
    /// The session refused to form the request.
    RequestRefused,
    /// The session could not process the server's response.
    ResponseRefused,
}

/// The stage a push client has reached.
#[derive(PartialEq, Eq, Structural, Clone, Copy, Debug)]
pub enum PushState {
    Idle,
    WaitingConnection,
    Handshaking,
    Connecting,
    Connected,
    Publishing,
}

/// A client that pushes a stream to a server over one connection.
pub struct PushClient {
    pub session: Option<ClientSession>,
    pub connection_id: Option<usize>,
    pub push_app: String,
    pub push_source_stream: String,
    pub push_target_stream: String,
    pub state: PushState,
    pub token: Option<usize>,
}

impl PushClient {
    /// An idle client with no session, no connection and empty names.
    pub fn new() -> (res: Self)
        ensures
            res.session is None,
            res.connection_id is None,
            res.push_app@ == Seq::<char>::empty(),
            res.push_source_stream@ == Seq::<char>::empty(),
            res.push_target_stream@ == Seq::<char>::empty(),
            res.state == PushState::Idle,
            res.token is None,
    {
        Self {
            session: None,
            connection_id: None,
            push_app: String::new(),
            push_source_stream: String::new(),
            push_target_stream: String::new(),
            state: PushState::Idle,
            token: None,
        }
    }

    /// Records the poll token of the client's connection.
    pub fn set_token(&mut self, token: usize)
        ensures
            final(self).token == Some(token),
            final(self).session == old(self).session,
            final(self).connection_id == old(self).connection_id,
            final(self).push_app == old(self).push_app,
            final(self).push_source_stream == old(self).push_source_stream,
            final(self).push_target_stream == old(self).push_target_stream,
            final(self).state == old(self).state,
    {
        self.token = Some(token);
    }

    /// The poll token of the client's connection, once there is one.
    pub fn get_token(&self) -> (res: Option<usize>)
        ensures
            res == self.token,
    {
        self.token
    }
}

/// The length in bytes of a text, as `str::len` reports it.
pub open spec fn byte_len(text: Seq<char>) -> usize {
    encode_utf8(text).len() as usize
}

/// Whether a tcUrl names a server to connect to: set, and longer than one byte.
pub open spec fn url_usable(url: Option<Seq<char>>) -> bool {
    url matches Some(u) && byte_len(u) > 1
}

/// What the outside world reports back while the client connects.
#[derive(PartialEq, Eq, Structural, Clone, Copy, Debug)]
pub enum ConnectEvent {
    /// The server's name resolved to this many addresses.
    HostResolved { address_count: usize },
    /// A connection to the first address is open and registered under `token`.
    ConnectionOpened { token: usize },
    /// The first write of the handshake succeeded or failed.
    HandshakeStarted { ok: bool },
}

/// What the client asks the outside world to do next while it connects.
pub enum ConnectAction {
    /// Resolve the server's name `host` to socket addresses.
    ResolveHost { host: String },
    /// Connect to the resolved address at `address_index` and register the
    /// connection.
    OpenConnection { address_index: usize },
    /// Start the handshake by writing on the connection under `token`.
    StartHandshake { token: usize },
    /// Serve the socket events of the connection.
    ServeEvents,
    /// Give up with `error`.
    Fail { error: RtmpError },
}

impl MyClientSession {
    /// Starts connecting `client` with `config`: records the application to
    /// push to, opens the session and asks for the server's name to be resolved.
    /// Also returns the deserializer that reads the session's packets back.
    pub fn begin_connect(
        &mut self,
        client: &mut PushClient,
        config: &MyClientSessionConfig,
    ) -> (res: (ConnectAction, ChunkDeserializer))
        requires
            url_usable(config@.tc_url),
        ensures
            final(client).push_app@ == default_app(),
            final(client).session is Some,
            final(client).session matches Some(s) ==> settings_agree(session_settings(s), config@)
                && next_transaction(s) == 1 && connect_allowed(s) && !session_connected(s)
                && chunk_limit(inbound_reader(s)) == 128 && forall|n: usize|
                #![trigger input_counters_fit(s, n)]
                input_counters_fit(s, n),
            res.0 is ResolveHost,
            Some(res.0->host@) == config@.tc_url,
            chunk_limit(res.1) == 128,
            final(client).state == old(client).state,
            final(client).token == old(client).token,
            final(client).connection_id == old(client).connection_id,
    {
        client.push_app = config.get_app();
        let deserializer = new_deserializer();
        match client_session_new(config.settings()) {
            Ok((session, _initial)) => {
                client.session = Some(session);
                match config.get_url() {
                    Some(url) => {
                        let text = url.as_str();
                        assert(text.spec_bytes() == encode_utf8(url@));
                        if text.len() > 1 {
                            (ConnectAction::ResolveHost { host: url }, deserializer)
                        } else {
                            assert(false);
                            (ConnectAction::Fail { error: RtmpError::RtmpErrorUnknown }, deserializer)
                        }
                    },
                    None => {
                        assert(false);
                        (ConnectAction::Fail { error: RtmpError::RtmpErrorUnknown }, deserializer)
                    },
                }
            },
            Err(_) => {
                assert(false);
                (ConnectAction::Fail { error: RtmpError::RtmpErrorUnknown }, deserializer)
            },
        }
    }

    /// The next step of connecting `client`, given what the outside world
    /// reports.
    pub fn on_connect_event(&mut self, client: &mut PushClient, event: ConnectEvent) -> (res:
        ConnectAction)
        ensures
            match event {
                ConnectEvent::HostResolved { address_count } => {
                    &&& address_count == 0 ==> (res is Fail && res->error == RtmpError::SocketAddrFailure)
                    &&& address_count > 0 ==> (res is OpenConnection && res->address_index == 0)
                    &&& *final(client) == *old(client)
                },
                ConnectEvent::ConnectionOpened { token } => {
                    &&& res is StartHandshake && res->token == token
                    &&& final(client).token == Some(token)
                    &&& final(client).state == PushState::Handshaking
                    &&& final(client).session == old(client).session
                    &&& final(client).connection_id == old(client).connection_id
                    &&& final(client).push_app == old(client).push_app
                    &&& final(client).push_source_stream == old(client).push_source_stream
                    &&& final(client).push_target_stream == old(client).push_target_stream
                },
                ConnectEvent::HandshakeStarted { ok } => {
                    &&& ok ==> res is ServeEvents
                    &&& !ok ==> (res is Fail && res->error == RtmpError::HandshakeStartFailure)
                    &&& *final(client) == *old(client)
                },
            },
    {
        match event {
            ConnectEvent::HostResolved { address_count } => {
                if address_count == 0 {
                    ConnectAction::Fail { error: RtmpError::SocketAddrFailure }
                } else {
                    ConnectAction::OpenConnection { address_index: 0 }
                }
            },
            ConnectEvent::ConnectionOpened { token } => {
                client.state = PushState::Handshaking;
                client.set_token(token);
                match client.get_token() {
                    Some(t) => ConnectAction::StartHandshake { token: t },
                    None => ConnectAction::Fail { error: RtmpError::RtmpErrorUnknown },
                }
            },
            ConnectEvent::HandshakeStarted { ok } => {
                if ok {
                    ConnectAction::ServeEvents
                } else {
                    ConnectAction::Fail { error: RtmpError::HandshakeStartFailure }
                }
            },
        }
    }
}

/// What serving one socket event came to.
pub enum EventResult {
    /// Nothing came of the event.
    Nothing,
    ReadResult(ReadResult),
    DisconnectConnection,
}

/// How far serving a socket event has got, with what the last I/O step gave.
pub enum EventProgress {
    /// The event arrived; `connection_found` tells whether its token belongs to
    /// a connection.
    Begin { connection_found: bool },
    /// The connection was asked to write; `ok` tells whether that worked.
    WriteFinished { ok: bool },
    /// The connection was asked to read, with this result.
    ReadFinished { result: Result<ReadResult, ConnectionError> },
}

/// The next step in serving a socket event.
pub enum EventStep {
    /// Let the connection write what it has pending.
    Write,
    /// Let the connection read what arrived.
    Read,
    /// Serving the event is over, with this result.
    Finish { result: EventResult },
}

/// The step that follows `progress` in serving an event on a socket ready as
/// `readiness`.
pub open spec fn next_event_step(readiness: Readiness, progress: EventProgress) -> EventStep {
    match progress {
        EventProgress::Begin { connection_found } => if !connection_found {
            EventStep::Finish { result: EventResult::Nothing }
        } else if readiness.writable {
            EventStep::Write
        } else if readiness.readable {
            EventStep::Read
        } else {
            EventStep::Finish { result: EventResult::Nothing }
        },
        EventProgress::WriteFinished { ok } => if !ok {
            EventStep::Finish { result: EventResult::DisconnectConnection }
        } else if readiness.readable {
            EventStep::Read
        } else {
            EventStep::Finish { result: EventResult::Nothing }
        },
        EventProgress::ReadFinished { result } => match result {
            Ok(r) => EventStep::Finish { result: EventResult::ReadResult(r) },
            Err(_) => EventStep::Finish { result: EventResult::DisconnectConnection },
        },
    }
}

impl MyClientSession {
    /// Serves a socket event step by step: a writable connection writes first,
    /// then a readable one reads; a failed write or read disconnects.
    pub fn process_event(&mut self, readiness: Readiness, progress: EventProgress) -> (res:
        EventStep)
        ensures
            res == next_event_step(readiness, progress),
    {
        match progress {
            EventProgress::Begin { connection_found } => {
                if !connection_found {
                    EventStep::Finish { result: EventResult::Nothing }
                } else if readiness.writable {
                    EventStep::Write
                } else if readiness.readable {
                    EventStep::Read
                } else {
                    EventStep::Finish { result: EventResult::Nothing }
                }
            },
            EventProgress::WriteFinished { ok } => {
                if !ok {
                    EventStep::Finish { result: EventResult::DisconnectConnection }
                } else if readiness.readable {
                    EventStep::Read
                } else {
                    EventStep::Finish { result: EventResult::Nothing }
                }
            },
            EventProgress::ReadFinished { result } => match result {
                Ok(r) => EventStep::Finish { result: EventResult::ReadResult(r) },
                Err(_) => EventStep::Finish { result: EventResult::DisconnectConnection },
            },
        }
    }
}

} // verus!
