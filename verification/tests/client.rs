use std::collections::HashMap;

use rml_amf0::Amf0Value;
use rml_rtmp::chunk_io::{ChunkDeserializer, ChunkSerializer, Packet};
use rml_rtmp::sessions::{ClientSessionEvent, ClientSessionResult};
use rml_rtmp::messages::RtmpMessage;
use rml_rtmp::time::RtmpTimestamp;
use rtmp_stream_lib::connection::{ConnectionError, ReadResult, Readiness};
use rtmp_stream_lib::messages::{DecodedMessage, SessionEvent, SessionResult};
use rtmp_stream_lib::rtmp_client::{
    ConnectAction, ConnectEvent, ConnectOutcome, EventProgress, EventResult, EventStep,
    MyClientSession, PushClient, PushState, RtmpError,
};
use rtmp_stream_lib::rtmp_clients::MyClientSessionConfig;

fn packet(message: RtmpMessage, serializer: &mut ChunkSerializer) -> Vec<u8> {
    let payload = message.into_message_payload(RtmpTimestamp::new(0), 0).unwrap();
    serializer.serialize(&payload, false, false).unwrap().bytes
}

fn connect_success_response(serializer: &mut ChunkSerializer) -> Vec<u8> {
    let mut command_properties = HashMap::new();
    command_properties.insert("fmsVer".to_string(), Amf0Value::Utf8String("fms".to_string()));
    command_properties.insert("capabilities".to_string(), Amf0Value::Number(31.0));
    let mut additional_properties = HashMap::new();
    additional_properties.insert("level".to_string(), Amf0Value::Utf8String("status".to_string()));
    additional_properties.insert(
        "code".to_string(),
        Amf0Value::Utf8String("NetConnection.Connect.Success".to_string()),
    );
    additional_properties.insert("description".to_string(), Amf0Value::Utf8String("hi".to_string()));
    additional_properties.insert("objectEncoding".to_string(), Amf0Value::Number(0.0));
    let message = RtmpMessage::Amf0Command {
        command_name: "_result".to_string(),
        transaction_id: 1.0,
        command_object: Amf0Value::Object(command_properties),
        additional_arguments: vec![Amf0Value::Object(additional_properties)],
    };
    packet(message, serializer)
}

fn test_config() -> MyClientSessionConfig {
    let mut config = MyClientSessionConfig::default();
    config.set_chunk_size(4096);
    config.set_flash_version("test");
    config
}

#[test]
fn new_push_client_is_idle_without_token() {
    let client = PushClient::new();
    assert_eq!(client.state, PushState::Idle);
    assert_eq!(client.get_token(), None);
    assert!(client.session.is_none());
    assert_eq!(client.push_app, "".to_string());
}

#[test]
fn token_reads_back_as_written() {
    let mut client = PushClient::new();
    client.set_token(3);
    assert_eq!(client.get_token(), Some(3));
    client.set_token(9);
    assert_eq!(client.get_token(), Some(9));
    assert_eq!(client.state, PushState::Idle);
}

#[test]
fn chunk_size_announcement_updates_the_deserializer() {
    let mut me = MyClientSession::new();
    let mut serializer = ChunkSerializer::new();
    let mut deserializer = ChunkDeserializer::new();
    let bytes = packet(RtmpMessage::SetChunkSize { size: 4096 }, &mut serializer);
    let results = vec![
        SessionResult::RaisedEvent(SessionEvent::PublishRequestAccepted),
        SessionResult::OutboundResponse(bytes),
        SessionResult::UnhandleableMessageReceived { type_id: 22 },
        SessionResult::RaisedEvent(SessionEvent::ConnectionRequestAccepted),
    ];
    let (responses, events) = me.split_results(&mut deserializer, results);
    assert_eq!(
        events,
        vec![SessionEvent::PublishRequestAccepted, SessionEvent::ConnectionRequestAccepted]
    );
    assert_eq!(responses.len(), 1);
    assert_eq!(responses[0].1, DecodedMessage::SetChunkSize { size: 4096 });
    assert_eq!(responses[0].0.type_id, 1);
    assert_eq!(deserializer.get_max_chunk_size(), 4096);
}

#[test]
fn other_messages_leave_the_chunk_size() {
    let mut me = MyClientSession::new();
    let mut serializer = ChunkSerializer::new();
    let mut deserializer = ChunkDeserializer::new();
    let ack = packet(RtmpMessage::WindowAcknowledgement { size: 2_500_000 }, &mut serializer);
    let abort = packet(RtmpMessage::Abort { stream_id: 3 }, &mut serializer);
    let results = vec![SessionResult::OutboundResponse(ack), SessionResult::OutboundResponse(abort)];
    let (responses, events) = me.split_results(&mut deserializer, results);
    assert!(events.is_empty());
    assert_eq!(responses.len(), 2);
    assert_eq!(responses[0].1, DecodedMessage::WindowAcknowledgement);
    assert_eq!(responses[1].1, DecodedMessage::Abort);
    assert_eq!(deserializer.get_max_chunk_size(), 128);
}

#[test]
fn last_chunk_size_announcement_wins() {
    let mut me = MyClientSession::new();
    let mut serializer = ChunkSerializer::new();
    let mut deserializer = ChunkDeserializer::new();
    let first = packet(RtmpMessage::SetChunkSize { size: 4096 }, &mut serializer);
    let second = packet(RtmpMessage::SetChunkSize { size: 256 }, &mut serializer);
    let results = vec![SessionResult::OutboundResponse(first), SessionResult::OutboundResponse(second)];
    me.split_results(&mut deserializer, results);
    assert_eq!(deserializer.get_max_chunk_size(), 256);
}

#[test]
fn split_of_two_batches_matches_split_of_both() {
    let mut me = MyClientSession::new();
    let mut deserializer = ChunkDeserializer::new();
    let (_, first) = me
        .split_results(&mut deserializer, vec![SessionResult::RaisedEvent(SessionEvent::PingResponseReceived)]);
    let (_, second) = me
        .split_results(&mut deserializer, vec![SessionResult::RaisedEvent(SessionEvent::AcknowledgementReceived)]);
    let (_, both) = me
        .split_results(
            &mut deserializer,
            vec![
                SessionResult::RaisedEvent(SessionEvent::PingResponseReceived),
                SessionResult::RaisedEvent(SessionEvent::AcknowledgementReceived),
            ],
        );
    let mut joined = first;
    joined.extend(second);
    assert_eq!(joined, both);
}

#[test]
fn incomplete_packet_is_a_decode_failure() {
    let mut me = MyClientSession::new();
    let mut deserializer = ChunkDeserializer::new();
    let results = vec![SessionResult::OutboundResponse(vec![0x03])];
    assert!(matches!(
        me.try_split_results(&mut deserializer, results),
        Err(RtmpError::ChunkDecodeFailure)
    ));
}

#[test]
fn consuming_nothing_changes_nothing() {
    let mut me = MyClientSession::new();
    let mut deserializer = ChunkDeserializer::new();
    me.consume_results(&mut deserializer, Vec::new());
    assert_eq!(deserializer.get_max_chunk_size(), 128);
}

#[test]
fn exactly_one_acceptance_is_a_successful_connect() {
    assert_eq!(
        MyClientSession::check_connect_events(&vec![SessionEvent::ConnectionRequestAccepted]),
        Ok(())
    );
    assert_eq!(
        MyClientSession::check_connect_events(&vec![SessionEvent::ConnectionRequestRejected]),
        Err(RtmpError::UnexpectedConnectEvents)
    );
    assert_eq!(MyClientSession::check_connect_events(&vec![]), Err(RtmpError::UnexpectedConnectEvents));
    assert_eq!(
        MyClientSession::check_connect_events(&vec![
            SessionEvent::ConnectionRequestAccepted,
            SessionEvent::ConnectionRequestAccepted
        ]),
        Err(RtmpError::UnexpectedConnectEvents)
    );
}

#[test]
fn begin_connect_asks_to_resolve_the_configured_server() {
    let mut me = MyClientSession::new();
    let mut client = PushClient::new();
    let (action, deserializer) = me.begin_connect(&mut client, &test_config());
    match action {
        ConnectAction::ResolveHost { host } => assert_eq!(host, "a.rtmp.youtube.com:1935".to_string()),
        _ => panic!("expected a host to resolve"),
    }
    assert_eq!(client.push_app, "live2/x".to_string());
    assert!(client.session.is_some());
    assert_eq!(client.state, PushState::Idle);
    assert_eq!(deserializer.get_max_chunk_size(), 128);
}

#[test]
fn unresolvable_host_fails_the_connect() {
    let mut me = MyClientSession::new();
    let mut client = PushClient::new();
    match me.on_connect_event(&mut client, ConnectEvent::HostResolved { address_count: 0 }) {
        ConnectAction::Fail { error } => assert_eq!(error, RtmpError::SocketAddrFailure),
        _ => panic!("expected a failure"),
    }
    assert!(matches!(
        me.on_connect_event(&mut client, ConnectEvent::HostResolved { address_count: 2 }),
        ConnectAction::OpenConnection { address_index: 0 }
    ));
}

#[test]
fn opened_connection_starts_the_handshake_with_its_token() {
    let mut me = MyClientSession::new();
    let mut client = PushClient::new();
    match me.on_connect_event(&mut client, ConnectEvent::ConnectionOpened { token: 5 }) {
        ConnectAction::StartHandshake { token } => assert_eq!(token, 5),
        _ => panic!("expected the handshake to start"),
    }
    assert_eq!(client.get_token(), Some(5));
    assert_eq!(client.state, PushState::Handshaking);
}

#[test]
fn failed_first_write_fails_the_handshake() {
    let mut me = MyClientSession::new();
    let mut client = PushClient::new();
    match me.on_connect_event(&mut client, ConnectEvent::HandshakeStarted { ok: false }) {
        ConnectAction::Fail { error } => assert_eq!(error, RtmpError::HandshakeStartFailure),
        _ => panic!("expected a failure"),
    }
    assert!(matches!(
        me.on_connect_event(&mut client, ConnectEvent::HandshakeStarted { ok: true }),
        ConnectAction::ServeEvents
    ));
}

#[test]
fn connect_is_accepted_and_chunk_size_follows_the_session() {
    let mut me = MyClientSession::new();
    let mut client = PushClient::new();
    let (_, mut deserializer) = me.begin_connect(&mut client, &test_config());
    let mut serializer = ChunkSerializer::new();
    let response = connect_success_response(&mut serializer);
    let app = client.push_app.clone();
    let session = client.session.as_mut().unwrap();
    let (outcome, results) = me.perform_successful_connect(app, session, &response);
    assert_eq!(outcome, ConnectOutcome::Accepted);
    // the request, then the window acknowledgement, the acceptance and the chunk size
    assert_eq!(results.len(), 4);
    let (responses, events) = me.split_results(&mut deserializer, results);
    assert_eq!(events, vec![SessionEvent::ConnectionRequestAccepted]);
    assert_eq!(responses.len(), 3);
    assert_eq!(responses[0].1, DecodedMessage::Amf0Command);
    assert_eq!(responses[2].1, DecodedMessage::SetChunkSize { size: 4096 });
    assert_eq!(deserializer.get_max_chunk_size(), 4096);
    let publish = me.request_publish(session, "key".to_string()).unwrap();
    assert_eq!(publish.len(), 1);
    assert_eq!(me.try_consume_results(&mut deserializer, publish), Ok(()));
}

#[test]
fn second_connect_request_is_refused_by_the_session() {
    let mut me = MyClientSession::new();
    let mut client = PushClient::new();
    me.begin_connect(&mut client, &test_config());
    let mut serializer = ChunkSerializer::new();
    let response = connect_success_response(&mut serializer);
    let app = client.push_app.clone();
    let session = client.session.as_mut().unwrap();
    me.perform_successful_connect(app.clone(), session, &response);
    let (outcome, results) = me.perform_successful_connect(app, session, &response);
    assert_eq!(outcome, ConnectOutcome::RequestRefused);
    assert!(results.is_empty());
}

#[test]
fn publishing_before_connecting_is_refused() {
    let mut me = MyClientSession::new();
    let mut client = PushClient::new();
    me.begin_connect(&mut client, &test_config());
    let session = client.session.as_mut().unwrap();
    assert!(matches!(
        me.request_publish(session, "key".to_string()),
        Err(RtmpError::RtmpErrorUnknown)
    ));
}

#[test]
fn command_with_too_few_values_is_a_decode_failure() {
    let mut me = MyClientSession::new();
    let mut deserializer = ChunkDeserializer::new();
    let results = vec![SessionResult::OutboundResponse(vec![0x03, 0, 0, 0, 0, 0, 0, 0x14, 0, 0, 0, 0])];
    assert!(matches!(
        me.try_split_results(&mut deserializer, results),
        Err(RtmpError::ChunkDecodeFailure)
    ));
}

#[test]
fn event_on_unknown_token_does_nothing() {
    let mut me = MyClientSession::new();
    let ready = Readiness { readable: true, writable: true };
    match me.process_event(ready, EventProgress::Begin { connection_found: false }) {
        EventStep::Finish { result: EventResult::Nothing } => {}
        _ => panic!("expected nothing to happen"),
    }
}

#[test]
fn writable_connection_writes_before_it_reads() {
    let mut me = MyClientSession::new();
    let ready = Readiness { readable: true, writable: true };
    assert!(matches!(me.process_event(ready, EventProgress::Begin { connection_found: true }), EventStep::Write));
    assert!(matches!(me.process_event(ready, EventProgress::WriteFinished { ok: true }), EventStep::Read));
    let only_write = Readiness { readable: false, writable: true };
    assert!(matches!(
        me.process_event(only_write, EventProgress::WriteFinished { ok: true }),
        EventStep::Finish { result: EventResult::Nothing }
    ));
    let only_read = Readiness { readable: true, writable: false };
    assert!(matches!(me.process_event(only_read, EventProgress::Begin { connection_found: true }), EventStep::Read));
}

#[test]
fn failed_io_disconnects() {
    let mut me = MyClientSession::new();
    let ready = Readiness { readable: true, writable: true };
    assert!(matches!(
        me.process_event(ready, EventProgress::WriteFinished { ok: false }),
        EventStep::Finish { result: EventResult::DisconnectConnection }
    ));
    assert!(matches!(
        me.process_event(ready, EventProgress::ReadFinished { result: Err(ConnectionError::SocketClosed) }),
        EventStep::Finish { result: EventResult::DisconnectConnection }
    ));
}

#[test]
fn read_result_is_handed_on() {
    let mut me = MyClientSession::new();
    let ready = Readiness { readable: true, writable: false };
    let read = Ok(ReadResult::BytesReceived { buffer: vec![1, 2, 3], byte_count: 3 });
    match me.process_event(ready, EventProgress::ReadFinished { result: read }) {
        EventStep::Finish { result: EventResult::ReadResult(ReadResult::BytesReceived { buffer, byte_count }) } => {
            assert_eq!(buffer, vec![1, 2, 3]);
            assert_eq!(byte_count, 3);
        }
        _ => panic!("expected the read result"),
    }
}

#[test]
fn reading_back_in_two_batches_is_reading_back_both_at_once() {
    let mut me = MyClientSession::new();
    let mut serializer = ChunkSerializer::new();
    let announce = serializer.set_max_chunk_size(4096, RtmpTimestamp::new(0)).unwrap().bytes;
    let video = packet(RtmpMessage::VideoData { data: vec![7u8; 300].into() }, &mut serializer);

    let mut one_by_one = ChunkDeserializer::new();
    let (first, _) = me.split_results(&mut one_by_one, vec![SessionResult::OutboundResponse(announce.clone())]);
    let (second, _) = me.split_results(&mut one_by_one, vec![SessionResult::OutboundResponse(video.clone())]);

    let mut at_once = ChunkDeserializer::new();
    let (both, _) = me.split_results(
        &mut at_once,
        vec![SessionResult::OutboundResponse(announce), SessionResult::OutboundResponse(video)],
    );

    assert_eq!(first.len() + second.len(), both.len());
    assert_eq!(both[0].1, first[0].1);
    assert_eq!(both[1].1, second[0].1);
    assert_eq!(both[1].1, DecodedMessage::VideoData);
    assert_eq!(both[1].0.data, second[0].0.data);
    assert_eq!(both[1].0.data.len(), 300);
    assert_eq!(one_by_one.get_max_chunk_size(), at_once.get_max_chunk_size());
    assert_eq!(at_once.get_max_chunk_size(), 4096);
}

#[test]
fn response_the_session_cannot_take_is_refused() {
    let mut me = MyClientSession::new();
    let mut client = PushClient::new();
    me.begin_connect(&mut client, &test_config());
    let mut serializer = ChunkSerializer::new();
    // a chunk size announcement above the largest size the session accepts
    let response = packet(
        RtmpMessage::Unknown { type_id: 1, data: vec![0xFF, 0xFF, 0xFF, 0xFF].into() },
        &mut serializer,
    );
    let app = client.push_app.clone();
    let session = client.session.as_mut().unwrap();
    let (outcome, results) = me.perform_successful_connect(app, session, &response);
    assert_eq!(outcome, ConnectOutcome::ResponseRefused);
    assert_eq!(results.len(), 1);
    assert!(matches!(results[0], SessionResult::OutboundResponse(_)));
}

#[test]
fn answer_other_than_acceptance_is_an_error() {
    let mut me = MyClientSession::new();
    let mut client = PushClient::new();
    me.begin_connect(&mut client, &test_config());
    let mut serializer = ChunkSerializer::new();
    let response = packet(RtmpMessage::Acknowledgement { sequence_number: 5 }, &mut serializer);
    let app = client.push_app.clone();
    let session = client.session.as_mut().unwrap();
    assert!(matches!(
        me.try_perform_successful_connect(app, session, &response),
        Err(RtmpError::UnexpectedConnectEvents)
    ));
}

#[test]
fn application_name_too_long_for_amf0_is_refused() {
    let mut me = MyClientSession::new();
    let mut client = PushClient::new();
    me.begin_connect(&mut client, &test_config());
    let mut serializer = ChunkSerializer::new();
    let response = connect_success_response(&mut serializer);
    let session = client.session.as_mut().unwrap();
    let (outcome, results) = me.perform_successful_connect("a".repeat(70000), session, &response);
    assert_eq!(outcome, ConnectOutcome::RequestRefused);
    assert!(results.is_empty());
}

#[test]
fn consuming_leaves_the_deserializer_as_splitting_does() {
    let mut me = MyClientSession::new();
    let mut serializer = ChunkSerializer::new();
    let announce = serializer.set_max_chunk_size(4096, RtmpTimestamp::new(0)).unwrap().bytes;
    let video = packet(RtmpMessage::VideoData { data: vec![9u8; 500].into() }, &mut serializer);
    let session_results = vec![
        ClientSessionResult::OutboundResponse(Packet { bytes: announce.clone(), can_be_dropped: false }),
        ClientSessionResult::RaisedEvent(ClientSessionEvent::ConnectionRequestAccepted),
        ClientSessionResult::OutboundResponse(Packet { bytes: video.clone(), can_be_dropped: false }),
    ];
    let plain = vec![
        SessionResult::OutboundResponse(announce),
        SessionResult::RaisedEvent(SessionEvent::ConnectionRequestAccepted),
        SessionResult::OutboundResponse(video),
    ];
    let mut consumed = ChunkDeserializer::new();
    let mut split = ChunkDeserializer::new();
    me.consume_results(&mut consumed, session_results);
    let (responses, _) = me.split_results(&mut split, plain);
    assert_eq!(responses.len(), 2);
    assert_eq!(consumed.get_max_chunk_size(), split.get_max_chunk_size());
    assert_eq!(consumed.get_max_chunk_size(), 4096);
}
