use arduino_client::codecs::{
    command_of_wire, decode_value, encode_command, ArduinoCodec, ArduinoCommand,
};
use arduino_client::framer::FrameError;

#[test]
fn encode_command_uses_canonical_wire_words() {
    assert_eq!(encode_command(ArduinoCommand::Ping), b"ping".to_vec());
    assert_eq!(
        encode_command(ArduinoCommand::GetProtocolVersion),
        b"get_protocol_version".to_vec()
    );
    assert_eq!(encode_command(ArduinoCommand::GetState), b"get_state".to_vec());
    assert_eq!(
        encode_command(ArduinoCommand::GetLastFalling),
        b"get_last_falling".to_vec()
    );
}

#[test]
fn wire_word_round_trip_over_every_variant() {
    let variants = [
        ArduinoCommand::Ping,
        ArduinoCommand::GetProtocolVersion,
        ArduinoCommand::GetState,
        ArduinoCommand::GetLastFalling,
    ];
    for command in variants {
        assert_eq!(command_of_wire(encode_command(command).as_slice()), Some(command));
    }
}

#[test]
fn command_of_wire_rejects_unknown_words() {
    assert_eq!(command_of_wire(b"pong"), None);
    assert_eq!(command_of_wire(b"pin"), None);
    assert_eq!(command_of_wire(b"ping "), None);
    assert_eq!(command_of_wire(b""), None);
}

#[test]
fn decode_value_parses_decimal() {
    assert_eq!(decode_value(b"42").unwrap(), 42);
    assert_eq!(decode_value(b"0").unwrap(), 0);
    assert_eq!(decode_value(b"007").unwrap(), 7);
    assert_eq!(decode_value(b"15000").unwrap(), 15000);
}

#[test]
fn decode_value_error_carries_raw_text() {
    let e = decode_value(b"abc").unwrap_err();
    assert_eq!(e.text, b"abc".to_vec());
}

#[test]
fn decode_value_rejects_non_digit_forms() {
    assert!(decode_value(b"").is_err());
    assert!(decode_value(b"+42").is_err());
    assert!(decode_value(b" 42").is_err());
    assert!(decode_value(b"42 ").is_err());
    assert!(decode_value(b"4.2").is_err());
    assert!(decode_value(b"-1").is_err());
}

#[test]
fn decode_value_range_limits() {
    assert_eq!(decode_value(b"18446744073709551615").unwrap(), u64::MAX);
    let e = decode_value(b"18446744073709551616").unwrap_err();
    assert_eq!(e.text, b"18446744073709551616".to_vec());
    assert!(decode_value(b"99999999999999999999999").is_err());
}

#[test]
fn codec_decodes_framed_responses() {
    let mut codec = ArduinoCodec::new();
    assert_eq!(codec.decode().unwrap(), None);
    codec.feed(b"15000\nabc\n4");
    assert_eq!(codec.decode().unwrap(), Some(15000));
    let e = codec.decode().unwrap_err();
    assert_eq!(e.text, b"abc".to_vec());
    assert_eq!(codec.decode().unwrap(), None);
    codec.feed(b"2\n");
    assert_eq!(codec.decode().unwrap(), Some(42));
}

#[test]
fn codec_decode_eof_flags_trailing_bytes() {
    let mut codec = ArduinoCodec::new();
    codec.feed(b"1\n");
    assert_eq!(codec.decode().unwrap(), Some(1));
    assert_eq!(codec.decode_eof(), Ok(()));
    codec.feed(b"7");
    assert_eq!(codec.decode_eof(), Err(FrameError::IncompleteTrailingFrame));
}

#[test]
fn codec_encode_frames_command() {
    assert_eq!(ArduinoCodec::encode(ArduinoCommand::Ping), b"ping\n".to_vec());
    assert_eq!(
        ArduinoCodec::encode(ArduinoCommand::GetLastFalling),
        b"get_last_falling\n".to_vec()
    );
}
