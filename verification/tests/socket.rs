use dblogd::datagram::{
    datagram_pending, datagram_start, thread_udp_socket, DatagramAction, DatagramEvent,
    DatagramSetup, DatagramState,
};
use dblogd::mqtt::{
    mqtt_pending, mqtt_start, thread_mqtt, MqttAction, MqttEvent, MqttParams, MqttSetup, MqttState,
    MqttTlsParams,
};
use dblogd::record::{DecodeError, Field};
use dblogd::schema::{Quantity, Schema, TimestampFormat};
use dblogd::socket::{
    connection_pending, connection_start, handle_tls_stream, listener_pending, listener_start,
    thread_tcp_listener_socket, tls_handshake, ConnectionAction, ConnectionEvent, ConnectionState,
    HandshakeOutcome, HandshakeState, ListenerAction, ListenerEvent, ListenerSetup, ListenerState,
};

const KITCHEN: &[u8] =
    br#"{"timestamp":1700000000,"sensor_name":"kitchen","temperature":21.5,"humidity":40.2}"#;

fn schema() -> Schema {
    Schema::new(TimestampFormat::Epoch, vec![
        Quantity { field: "temperature".to_string(), table: "temperature".to_string(), column: "celsius".to_string() },
        Quantity { field: "humidity".to_string(), table: "humidity".to_string(), column: "humidity".to_string() },
    ])
    .unwrap()
}

fn buffer_with(payload: &[u8]) -> [u8; 512] {
    let mut buffer = [0u8; 512];
    buffer[..payload.len()].copy_from_slice(payload);
    buffer
}

#[test]
fn handshake_resolves_once() {
    let completed = HandshakeOutcome::Completed;
    let would_block = HandshakeOutcome::WouldBlock;
    let failure = HandshakeOutcome::Failure;
    assert_eq!(tls_handshake(HandshakeState::Initiated, completed), HandshakeState::Established);
    assert_eq!(tls_handshake(HandshakeState::Initiated, would_block), HandshakeState::WouldBlock);
    assert_eq!(tls_handshake(HandshakeState::Initiated, failure), HandshakeState::Failed);
    assert_eq!(tls_handshake(HandshakeState::WouldBlock, completed), HandshakeState::Established);
    assert_eq!(tls_handshake(HandshakeState::WouldBlock, would_block), HandshakeState::WouldBlock);
    assert_eq!(tls_handshake(HandshakeState::WouldBlock, failure), HandshakeState::Failed);
    for outcome in [completed, would_block, failure] {
        assert_eq!(tls_handshake(HandshakeState::Established, outcome), HandshakeState::Established);
        assert_eq!(tls_handshake(HandshakeState::Failed, outcome), HandshakeState::Failed);
    }
}

#[test]
fn handshake_that_blocks_is_established_in_the_end() {
    for blocked in [0usize, 1, 2, 50] {
        let schema = schema();
        let mut state = connection_start();
        for _ in 0..blocked {
            assert_eq!(connection_pending(state), ConnectionAction::Handshake);
            state = handle_tls_stream(&schema, state, ConnectionEvent::Handshake(HandshakeOutcome::WouldBlock), &[]).0;
        }
        assert_eq!(connection_pending(state), ConnectionAction::Handshake);
        state = handle_tls_stream(&schema, state, ConnectionEvent::Handshake(HandshakeOutcome::Completed), &[]).0;
        assert_eq!(state, ConnectionState::Handshake(HandshakeState::Established));
        assert_eq!(connection_pending(state), ConnectionAction::SetReadTimeout);
        state = handle_tls_stream(&schema, state, ConnectionEvent::Succeeded, &[]).0;
        assert_eq!(connection_pending(state), ConnectionAction::ObserveShutdown);
        state = handle_tls_stream(&schema, state, ConnectionEvent::Shutdown(false), &[]).0;
        assert_eq!(connection_pending(state), ConnectionAction::Read);
        let buffer = buffer_with(KITCHEN);
        let (next, record) = handle_tls_stream(&schema, state, ConnectionEvent::Read(KITCHEN.len()), &buffer);
        assert_eq!(next, ConnectionState::Sending);
        assert_eq!(connection_pending(next), ConnectionAction::Forward);
        let record = record.unwrap();
        assert_eq!(record.sensor_name, "kitchen");
        assert_eq!(record.quantities, vec![21.5f64.to_bits(), 40.2f64.to_bits()]);
    }
}

#[test]
fn failed_handshake_gives_up_the_connection_only() {
    let schema = schema();
    let state = connection_start();
    let (state, record) = handle_tls_stream(&schema, state, ConnectionEvent::Handshake(HandshakeOutcome::Failure), &[]);
    assert!(record.is_none());
    assert_eq!(state, ConnectionState::Handshake(HandshakeState::Failed));
    assert_eq!(connection_pending(state), ConnectionAction::Release);
    let (state, _) = handle_tls_stream(&schema, state, ConnectionEvent::Succeeded, &[]);
    assert_eq!(state, ConnectionState::Released);
}

#[test]
fn read_timeout_that_cannot_be_set_closes_the_stream() {
    let schema = schema();
    let state = ConnectionState::Handshake(HandshakeState::Established);
    let (state, _) = handle_tls_stream(&schema, state, ConnectionEvent::Failed, &[]);
    assert_eq!(connection_pending(state), ConnectionAction::Close);
    let (state, _) = handle_tls_stream(&schema, state, ConnectionEvent::Succeeded, &[]);
    assert_eq!(connection_pending(state), ConnectionAction::Release);
}

#[test]
fn malformed_payload_is_dropped_and_the_connection_lives() {
    let schema = schema();
    let bad: &[u8] = br#"{"timestamp":1700000000,"sensor_name":"kit"#;
    let buffer = buffer_with(bad);
    let (state, record) =
        handle_tls_stream(&schema, ConnectionState::Reading, ConnectionEvent::Read(bad.len()), &buffer);
    assert!(record.is_none());
    assert_eq!(state, ConnectionState::Discarding(DecodeError::InvalidJson));
    assert_eq!(connection_pending(state), ConnectionAction::Discard(DecodeError::InvalidJson));
    let (state, _) = handle_tls_stream(&schema, state, ConnectionEvent::Succeeded, &buffer);
    assert_eq!(state, ConnectionState::Checking);
    let (state, _) = handle_tls_stream(&schema, state, ConnectionEvent::Shutdown(false), &buffer);
    assert_eq!(state, ConnectionState::Reading);
    let buffer = buffer_with(KITCHEN);
    let (state, record) = handle_tls_stream(&schema, state, ConnectionEvent::Read(KITCHEN.len()), &buffer);
    assert_eq!(state, ConnectionState::Sending);
    assert_eq!(record.unwrap().timestamp, 1700000000);
}

#[test]
fn wrong_types_and_missing_members_are_dropped() {
    let schema = schema();
    let wrong: &[u8] = br#"{"timestamp":"x","sensor_name":"k","temperature":1,"humidity":2}"#;
    let (state, record) = handle_tls_stream(
        &schema,
        ConnectionState::Reading,
        ConnectionEvent::Read(wrong.len()),
        &buffer_with(wrong),
    );
    assert!(record.is_none());
    assert_eq!(state, ConnectionState::Discarding(DecodeError::Mistyped(Field::Timestamp)));
    let missing: &[u8] = br#"{"timestamp":1,"sensor_name":"k","temperature":1}"#;
    let (state, record) = handle_tls_stream(
        &schema,
        ConnectionState::Reading,
        ConnectionEvent::Read(missing.len()),
        &buffer_with(missing),
    );
    assert!(record.is_none());
    assert_eq!(state, ConnectionState::Discarding(DecodeError::Missing(Field::Quantity(1))));
}

#[test]
fn payload_is_cut_to_the_bytes_read() {
    let schema = schema();
    let buffer = buffer_with(KITCHEN);
    let (state, record) =
        handle_tls_stream(&schema, ConnectionState::Reading, ConnectionEvent::Read(20), &buffer);
    assert!(record.is_none());
    assert_eq!(state, ConnectionState::Discarding(DecodeError::InvalidJson));
}

#[test]
fn read_outcomes() {
    let schema = schema();
    let buffer = [0u8; 512];
    let (state, _) = handle_tls_stream(&schema, ConnectionState::Reading, ConnectionEvent::Read(0), &buffer);
    assert_eq!(state, ConnectionState::Closing);
    let (state, _) = handle_tls_stream(&schema, ConnectionState::Reading, ConnectionEvent::WouldBlock, &buffer);
    assert_eq!(state, ConnectionState::Checking);
    let (state, _) = handle_tls_stream(&schema, ConnectionState::Reading, ConnectionEvent::Failed, &buffer);
    assert_eq!(state, ConnectionState::Checking);
    let (state, _) = handle_tls_stream(&schema, ConnectionState::Sending, ConnectionEvent::Failed, &buffer);
    assert_eq!(state, ConnectionState::Checking);
}

#[test]
fn connection_closes_when_the_flag_is_set() {
    let schema = schema();
    let (state, _) = handle_tls_stream(&schema, ConnectionState::Checking, ConnectionEvent::Shutdown(true), &[]);
    assert_eq!(connection_pending(state), ConnectionAction::Close);
    let (state, _) = handle_tls_stream(&schema, state, ConnectionEvent::Failed, &[]);
    assert_eq!(state, ConnectionState::Released);
    let (state, _) = handle_tls_stream(&schema, state, ConnectionEvent::Read(3), &[1, 2, 3]);
    assert_eq!(state, ConnectionState::Released);
}

#[test]
fn listener_sets_up_accepts_and_drains() {
    let mut state = listener_start();
    let mut steps = Vec::new();
    while let ListenerAction::Setup(step) = listener_pending(state) {
        steps.push(step);
        state = thread_tcp_listener_socket(state, ListenerEvent::Succeeded);
    }
    assert_eq!(
        steps,
        vec![
            ListenerSetup::OpenIdentity,
            ListenerSetup::ReadIdentity,
            ListenerSetup::ParseIdentity,
            ListenerSetup::BuildAcceptor,
            ListenerSetup::Bind,
            ListenerSetup::SetNonblocking,
            ListenerSetup::LocalAddress,
            ListenerSetup::StartPool,
        ]
    );
    assert_eq!(listener_pending(state), ListenerAction::Accept);
    state = thread_tcp_listener_socket(state, ListenerEvent::WouldBlock);
    assert_eq!(listener_pending(state), ListenerAction::ObserveShutdown);
    state = thread_tcp_listener_socket(state, ListenerEvent::Shutdown(false));
    assert_eq!(listener_pending(state), ListenerAction::Accept);
    state = thread_tcp_listener_socket(state, ListenerEvent::Accepted);
    state = thread_tcp_listener_socket(state, ListenerEvent::Shutdown(false));
    assert_eq!(listener_pending(state), ListenerAction::Dispatch);
    state = thread_tcp_listener_socket(state, ListenerEvent::Succeeded);
    assert_eq!(listener_pending(state), ListenerAction::Accept);
    state = thread_tcp_listener_socket(state, ListenerEvent::Failed);
    assert_eq!(state, ListenerState::Checking { accepted: false });
    state = thread_tcp_listener_socket(state, ListenerEvent::Shutdown(true));
    assert_eq!(listener_pending(state), ListenerAction::JoinPool);
    state = thread_tcp_listener_socket(state, ListenerEvent::Succeeded);
    assert_eq!(state, ListenerState::Stopped);
    assert_eq!(listener_pending(state), ListenerAction::Stop);
}

#[test]
fn listener_drops_a_connection_accepted_at_shutdown() {
    let state = thread_tcp_listener_socket(ListenerState::Accepting, ListenerEvent::Accepted);
    let state = thread_tcp_listener_socket(state, ListenerEvent::Shutdown(true));
    assert_eq!(state, ListenerState::Draining);
}

#[test]
fn listener_setup_failure_raises_the_flag() {
    for failing in 0..8 {
        let mut state = listener_start();
        for _ in 0..failing {
            state = thread_tcp_listener_socket(state, ListenerEvent::Succeeded);
        }
        state = thread_tcp_listener_socket(state, ListenerEvent::Failed);
        assert_eq!(listener_pending(state), ListenerAction::RaiseShutdown);
        state = thread_tcp_listener_socket(state, ListenerEvent::Succeeded);
        assert_eq!(listener_pending(state), ListenerAction::Stop);
    }
}

#[test]
fn datagram_loop() {
    let schema = schema();
    let mut state = datagram_start();
    assert_eq!(datagram_pending(state), DatagramAction::Setup(DatagramSetup::Bind));
    state = thread_udp_socket(&schema, state, DatagramEvent::Succeeded, &[]).0;
    assert_eq!(datagram_pending(state), DatagramAction::Setup(DatagramSetup::SetNonblocking));
    state = thread_udp_socket(&schema, state, DatagramEvent::Succeeded, &[]).0;
    assert_eq!(datagram_pending(state), DatagramAction::ObserveShutdown);
    state = thread_udp_socket(&schema, state, DatagramEvent::Shutdown(false), &[]).0;
    assert_eq!(datagram_pending(state), DatagramAction::Receive);
    state = thread_udp_socket(&schema, state, DatagramEvent::WouldBlock, &[]).0;
    assert_eq!(datagram_pending(state), DatagramAction::Sleep);
    state = thread_udp_socket(&schema, state, DatagramEvent::Succeeded, &[]).0;
    state = thread_udp_socket(&schema, state, DatagramEvent::Shutdown(false), &[]).0;
    let buffer = buffer_with(KITCHEN);
    let (next, record) = thread_udp_socket(&schema, state, DatagramEvent::Received(KITCHEN.len()), &buffer);
    assert_eq!(datagram_pending(next), DatagramAction::Forward);
    assert_eq!(record.unwrap().sensor_name, "kitchen");
    let (next, record) = thread_udp_socket(&schema, state, DatagramEvent::Received(0), &buffer);
    assert!(record.is_none());
    assert_eq!(next, DatagramState::Discarding(DecodeError::InvalidJson));
    let (next, record) = thread_udp_socket(&schema, state, DatagramEvent::Received(600), KITCHEN);
    assert!(record.is_some());
    assert_eq!(next, DatagramState::Sending);
    state = thread_udp_socket(&schema, next, DatagramEvent::Failed, &buffer).0;
    assert_eq!(state, DatagramState::Checking);
    state = thread_udp_socket(&schema, state, DatagramEvent::Shutdown(true), &buffer).0;
    assert_eq!(datagram_pending(state), DatagramAction::Stop);
}

#[test]
fn datagram_setup_failure_raises_the_flag() {
    let schema = schema();
    let state = thread_udp_socket(&schema, datagram_start(), DatagramEvent::Failed, &[]).0;
    assert_eq!(datagram_pending(state), DatagramAction::RaiseShutdown);
    let state = thread_udp_socket(&schema, state, DatagramEvent::Succeeded, &[]).0;
    assert_eq!(state, DatagramState::Stopped);
}

fn mqtt_params(tls_enable: bool, with_tls_params: bool) -> MqttParams {
    MqttParams {
        address: "broker".to_string(),
        port: 1883,
        tls_enable,
        tls_params: if with_tls_params {
            Some(MqttTlsParams {
                ca_path: "ca".to_string(),
                cert_path: "cert".to_string(),
                key_path: "key".to_string(),
                key_pass: Some("pass".to_string()),
            })
        } else {
            None
        },
        env_topic: "env".to_string(),
        qos: 1,
    }
}

fn mqtt_setup_steps(params: &MqttParams) -> (Vec<MqttSetup>, MqttState) {
    let schema = schema();
    let mut state = mqtt_start();
    let mut steps = Vec::new();
    while let MqttAction::Setup(step) = mqtt_pending(state) {
        steps.push(step);
        state = thread_mqtt(params, &schema, state, MqttEvent::Succeeded, &[]).0;
    }
    (steps, state)
}

#[test]
fn mqtt_setup_with_and_without_tls() {
    let (steps, state) = mqtt_setup_steps(&mqtt_params(false, false));
    assert_eq!(
        steps,
        vec![MqttSetup::ReadClock, MqttSetup::CreateClient, MqttSetup::Connect, MqttSetup::Subscribe]
    );
    assert_eq!(state, MqttState::Checking);
    let (steps, state) = mqtt_setup_steps(&mqtt_params(true, true));
    assert_eq!(
        steps,
        vec![
            MqttSetup::ReadClock,
            MqttSetup::CreateClient,
            MqttSetup::ConfigureTls,
            MqttSetup::Connect,
            MqttSetup::Subscribe,
        ]
    );
    assert_eq!(state, MqttState::Checking);
    let (steps, state) = mqtt_setup_steps(&mqtt_params(true, false));
    assert_eq!(steps, vec![MqttSetup::ReadClock, MqttSetup::CreateClient]);
    assert_eq!(state, MqttState::Failing);
    let (steps, _) = mqtt_setup_steps(&mqtt_params(false, true));
    assert_eq!(steps.len(), 4);
}

#[test]
fn mqtt_messages() {
    let params = mqtt_params(false, false);
    let schema = schema();
    let live = MqttEvent::Message { retained: false, on_topic: true };
    let (state, record) = thread_mqtt(&params, &schema, MqttState::Polling, live, KITCHEN);
    assert_eq!(mqtt_pending(state), MqttAction::Forward);
    assert_eq!(record.unwrap().timestamp, 1700000000);
    let retained = MqttEvent::Message { retained: true, on_topic: true };
    let (state, record) = thread_mqtt(&params, &schema, MqttState::Polling, retained, KITCHEN);
    assert!(record.is_none());
    assert_eq!(state, MqttState::Checking);
    let elsewhere = MqttEvent::Message { retained: false, on_topic: false };
    let (state, record) = thread_mqtt(&params, &schema, MqttState::Polling, elsewhere, KITCHEN);
    assert!(record.is_none());
    assert_eq!(state, MqttState::Checking);
    let (state, record) = thread_mqtt(&params, &schema, MqttState::Polling, live, b"{\"timestamp\":");
    assert!(record.is_none());
    assert_eq!(mqtt_pending(state), MqttAction::Discard(DecodeError::InvalidJson));
    let (state, _) = thread_mqtt(&params, &schema, state, MqttEvent::Succeeded, &[]);
    assert_eq!(state, MqttState::Checking);
    let (state, _) = thread_mqtt(&params, &schema, MqttState::Polling, MqttEvent::Idle, &[]);
    assert_eq!(state, MqttState::Checking);
    let (state, _) = thread_mqtt(&params, &schema, MqttState::Sending, MqttEvent::Failed, &[]);
    assert_eq!(state, MqttState::Checking);
}

#[test]
fn mqtt_reconnects_once() {
    let params = mqtt_params(false, false);
    let schema = schema();
    let (state, _) = thread_mqtt(&params, &schema, MqttState::Polling, MqttEvent::Dropped, &[]);
    assert_eq!(mqtt_pending(state), MqttAction::Reconnect);
    let (again, _) = thread_mqtt(&params, &schema, state, MqttEvent::Succeeded, &[]);
    assert_eq!(again, MqttState::Checking);
    let (failed, _) = thread_mqtt(&params, &schema, state, MqttEvent::Failed, &[]);
    assert_eq!(mqtt_pending(failed), MqttAction::RaiseShutdown);
    let (stopped, _) = thread_mqtt(&params, &schema, failed, MqttEvent::Succeeded, &[]);
    assert_eq!(stopped, MqttState::Stopped);
}

#[test]
fn mqtt_failures_and_shutdown() {
    let params = mqtt_params(false, false);
    let schema = schema();
    let (state, _) =
        thread_mqtt(&params, &schema, MqttState::Setup(MqttSetup::Connect), MqttEvent::Failed, &[]);
    assert_eq!(state, MqttState::Failing);
    let (state, _) =
        thread_mqtt(&params, &schema, MqttState::Setup(MqttSetup::Subscribe), MqttEvent::Failed, &[]);
    assert_eq!(mqtt_pending(state), MqttAction::Disconnect);
    let (state, _) = thread_mqtt(&params, &schema, state, MqttEvent::Failed, &[]);
    assert_eq!(mqtt_pending(state), MqttAction::RaiseShutdown);
    let (state, _) = thread_mqtt(&params, &schema, MqttState::Checking, MqttEvent::Shutdown(true), &[]);
    assert_eq!(mqtt_pending(state), MqttAction::Disconnect);
    let (state, _) = thread_mqtt(&params, &schema, state, MqttEvent::Succeeded, &[]);
    assert_eq!(state, MqttState::Stopped);
    assert_eq!(mqtt_pending(state), MqttAction::Stop);
}
