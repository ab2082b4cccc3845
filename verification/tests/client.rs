use arduino_client::codecs::ArduinoCommand;
use arduino_client::microcontroller::{
    ClientError, HandshakeStep, Microcontroller, ProtocolError,
};

/// Drives a fresh client through a successful handshake against a simulated
/// device that answers 1 to ping and 0 to the version query.
fn ready_client() -> Microcontroller {
    let mut client = Microcontroller::new();
    let frame = client.acquire();
    assert_eq!(frame, b"ping\n".to_vec());
    client.receive(b"1\n");
    match client.poll_handshake().unwrap() {
        HandshakeStep::Next(next) => assert_eq!(next, b"get_protocol_version\n".to_vec()),
        other => panic!("expected the version query, got {:?}", other),
    }
    client.receive(b"0\n");
    assert!(matches!(client.poll_handshake().unwrap(), HandshakeStep::Complete));
    assert!(client.is_ready());
    client
}

#[test]
fn acquire_succeeds_and_client_is_ready() {
    let client = ready_client();
    assert!(client.is_ready());
}

#[test]
fn acquire_fails_on_unexpected_ping_response() {
    let mut client = Microcontroller::new();
    let frame = client.acquire();
    assert_eq!(frame, b"ping\n".to_vec());
    client.receive(b"2\n");
    let e = client.poll_handshake().unwrap_err();
    assert!(matches!(
        e,
        ClientError::Protocol { error: ProtocolError::UnexpectedPingResponse { observed: 2 } }
    ));
    // The failure yields no follow-up frame: the version query is never sent.
    assert!(!client.is_ready());
}

#[test]
fn acquire_fails_on_unsupported_protocol_version() {
    let mut client = Microcontroller::new();
    client.acquire();
    client.receive(b"1\n");
    assert!(matches!(client.poll_handshake().unwrap(), HandshakeStep::Next(_)));
    client.receive(b"1\n");
    let e = client.poll_handshake().unwrap_err();
    assert!(matches!(
        e,
        ClientError::Protocol {
            error: ProtocolError::UnsupportedProtocolVersion { expected: 0, observed: 1 }
        }
    ));
    assert!(!client.is_ready());
}

#[test]
fn handshake_waits_for_a_complete_line() {
    let mut client = Microcontroller::new();
    client.acquire();
    client.receive(b"1");
    assert!(matches!(client.poll_handshake().unwrap(), HandshakeStep::Pending));
    client.receive(b"\n");
    assert!(matches!(client.poll_handshake().unwrap(), HandshakeStep::Next(_)));
}

#[test]
fn handshake_fails_on_malformed_ping_response() {
    let mut client = Microcontroller::new();
    client.acquire();
    client.receive(b"yes\n");
    let e = client.poll_handshake().unwrap_err();
    assert!(matches!(
        e,
        ClientError::Decode { command: ArduinoCommand::Ping, ref text } if *text == b"yes".to_vec()
    ));
}

#[test]
fn get_state_is_permissive_boolean_coercion() {
    for (response, expected) in [
        (&b"1\n"[..], true),
        (&b"0\n"[..], false),
        (&b"2\n"[..], false),
        (&b"999\n"[..], false),
    ] {
        let mut client = ready_client();
        let frame = client.get_state();
        assert_eq!(frame, b"get_state\n".to_vec());
        client.receive(response);
        assert_eq!(client.poll_state().unwrap(), Some(expected));
        assert!(client.is_ready());
    }
}

#[test]
fn get_last_falling_returns_value_unchanged() {
    let mut client = ready_client();
    let frame = client.get_last_falling();
    assert_eq!(frame, b"get_last_falling\n".to_vec());
    client.receive(b"15000\n");
    assert_eq!(client.poll_last_falling().unwrap(), Some(15000));
}

#[test]
fn close_while_awaiting_response_is_connection_closed() {
    let mut client = ready_client();
    client.send_command(ArduinoCommand::GetLastFalling);
    client.receive(b"150");
    // No terminator yet: the exchange is still pending, not a decode error.
    assert_eq!(client.poll_last_falling().unwrap(), None);
    let e = client.transport_closed().unwrap_err();
    assert!(matches!(
        e,
        ClientError::ConnectionClosed { command: ArduinoCommand::GetLastFalling }
    ));
    assert!(!matches!(e, ClientError::Decode { .. }));
    assert!(!client.is_ready());
}

#[test]
fn close_while_idle_is_clean() {
    let mut client = ready_client();
    assert_eq!(client.transport_closed().map_err(|_| ()), Ok(()));
    assert!(!client.is_ready());
}

#[test]
fn transport_failure_names_in_flight_command() {
    let mut client = ready_client();
    client.send_command(ArduinoCommand::GetState);
    let e = client.transport_failed();
    assert!(matches!(
        e,
        ClientError::Transport { in_flight: Some(ArduinoCommand::GetState) }
    ));
    assert!(!client.is_ready());
}

#[test]
fn ping_succeeds_only_on_one() {
    let mut client = ready_client();
    let frame = client.ping();
    assert_eq!(frame, b"ping\n".to_vec());
    client.receive(b"1\n");
    assert_eq!(client.poll_ping().map_err(|_| ()), Ok(Some(())));
    assert!(client.is_ready());

    let mut failing = ready_client();
    failing.ping();
    failing.receive(b"0\n");
    let e = failing.poll_ping().unwrap_err();
    assert!(matches!(
        e,
        ClientError::Protocol { error: ProtocolError::UnexpectedPingResponse { observed: 0 } }
    ));
    assert!(!failing.is_ready());
}

#[test]
fn protocol_version_is_narrowed_to_eight_bits() {
    let mut client = ready_client();
    let frame = client.get_protocol_version();
    assert_eq!(frame, b"get_protocol_version\n".to_vec());
    client.receive(b"7\n");
    assert_eq!(client.poll_protocol_version().unwrap(), Some(7u8));
    assert!(client.is_ready());

    let mut out_of_range = ready_client();
    out_of_range.get_protocol_version();
    out_of_range.receive(b"300\n");
    let e = out_of_range.poll_protocol_version().unwrap_err();
    assert!(matches!(
        e,
        ClientError::Decode { command: ArduinoCommand::GetProtocolVersion, ref text }
            if *text == b"300".to_vec()
    ));
    assert!(!out_of_range.is_ready());
}

#[test]
fn malformed_response_mid_session_is_fatal() {
    let mut client = ready_client();
    client.get_state();
    client.receive(b"abc\n");
    let e = client.poll_state().unwrap_err();
    assert!(matches!(
        e,
        ClientError::Decode { command: ArduinoCommand::GetState, ref text }
            if *text == b"abc".to_vec()
    ));
    assert!(!client.is_ready());
}

#[test]
fn response_split_across_reads_is_reassembled() {
    let mut client = ready_client();
    client.get_last_falling();
    client.receive(b"15");
    assert_eq!(client.poll_last_falling().unwrap(), None);
    client.receive(b"000");
    assert_eq!(client.poll_last_falling().unwrap(), None);
    client.receive(b"\n");
    assert_eq!(client.poll_last_falling().unwrap(), Some(15000));
}
