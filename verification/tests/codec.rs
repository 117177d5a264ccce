use rcon_cli::error::RconError;
use rcon_cli::protocol::{
    RconPacket, MAX_REQUEST_PAYLOAD_SIZE, PACKET_TYPE_AUTH, PACKET_TYPE_EXECCOMMAND,
    PACKET_TYPE_RESPONSE_VALUE,
};

#[test]
fn packet_new_keeps_fields() {
    let p = RconPacket::new(42, PACKET_TYPE_RESPONSE_VALUE, b"abc".to_vec());
    assert_eq!(p.request_id, 42);
    assert_eq!(p.packet_type, 0);
    assert_eq!(p.payload, b"abc".to_vec());
}

#[test]
fn auth_packet_has_auth_type_and_credential_bytes() {
    let p = RconPacket::auth(1, "secret");
    assert_eq!(p.request_id, 1);
    assert_eq!(p.packet_type, PACKET_TYPE_AUTH);
    assert_eq!(p.payload, b"secret".to_vec());
}

#[test]
fn command_packet_has_command_type() {
    let p = RconPacket::command(9, "list");
    assert_eq!(p.request_id, 9);
    assert_eq!(p.packet_type, PACKET_TYPE_EXECCOMMAND);
    assert_eq!(p.payload, b"list".to_vec());
}

#[test]
fn encode_exact_bytes() {
    let p = RconPacket::auth(1, "pass");
    let bytes = p.to_bytes().unwrap();
    let expected: Vec<u8> = vec![
        0x0e, 0x00, 0x00, 0x00, // size = 4 + 4 + 4 + 2 = 14
        0x01, 0x00, 0x00, 0x00, // request id
        0x03, 0x00, 0x00, 0x00, // type AUTH
        b'p', b'a', b's', b's', // payload
        0x00, 0x00, // terminators
    ];
    assert_eq!(bytes, expected);
}

#[test]
fn encode_negative_request_id_little_endian() {
    let p = RconPacket::new(-1, PACKET_TYPE_EXECCOMMAND, Vec::new());
    let bytes = p.to_bytes().unwrap();
    assert_eq!(&bytes[4..8], &[0xff, 0xff, 0xff, 0xff]);
}

#[test]
fn encode_rejects_oversized_payload() {
    let p = RconPacket::new(1, PACKET_TYPE_EXECCOMMAND, vec![b'x'; MAX_REQUEST_PAYLOAD_SIZE + 1]);
    assert_eq!(p.to_bytes(), Err(RconError::PayloadTooLarge));
}

#[test]
fn encode_accepts_maximal_payload() {
    let p = RconPacket::new(1, PACKET_TYPE_EXECCOMMAND, vec![b'x'; MAX_REQUEST_PAYLOAD_SIZE]);
    let bytes = p.to_bytes().unwrap();
    assert_eq!(bytes.len(), MAX_REQUEST_PAYLOAD_SIZE + 14);
}

#[test]
fn decode_round_trips_encoded_packet() {
    let p = RconPacket::new(7, PACKET_TYPE_EXECCOMMAND, b"time set day".to_vec());
    let bytes = p.to_bytes().unwrap();
    let q = RconPacket::from_bytes(&bytes).unwrap();
    assert_eq!(q.request_id, 7);
    assert_eq!(q.packet_type, PACKET_TYPE_EXECCOMMAND);
    assert_eq!(q.payload, b"time set day".to_vec());
}

#[test]
fn decode_round_trips_negative_request_id() {
    let p = RconPacket::new(-42, PACKET_TYPE_RESPONSE_VALUE, b"z".to_vec());
    let bytes = p.to_bytes().unwrap();
    let q = RconPacket::from_bytes(&bytes).unwrap();
    assert_eq!(q.request_id, -42);
    assert_eq!(q.packet_type, PACKET_TYPE_RESPONSE_VALUE);
    assert_eq!(q.payload, b"z".to_vec());
}

#[test]
fn decode_rejects_short_buffer_as_truncated() {
    let buf = [0u8; 11];
    assert_eq!(RconPacket::from_bytes(&buf), Err(RconError::Truncated));
    assert_eq!(RconPacket::from_bytes(&[]), Err(RconError::Truncated));
}

#[test]
fn decode_rejects_size_field_mismatch() {
    // size field says 11, so the buffer should be 15 bytes, but 14 arrive
    let mut buf = vec![0x0b, 0x00, 0x00, 0x00];
    buf.extend_from_slice(&[0u8; 10]);
    assert_eq!(RconPacket::from_bytes(&buf), Err(RconError::LengthMismatch));
}

#[test]
fn decode_rejects_negative_size_field() {
    let mut buf = vec![0xff, 0xff, 0xff, 0xff];
    buf.extend_from_slice(&[0u8; 10]);
    assert_eq!(RconPacket::from_bytes(&buf), Err(RconError::LengthMismatch));
}

#[test]
fn decode_rejects_size_too_small_for_terminators() {
    // 12 bytes with a consistent size field of 8: no room for payload
    // and terminators
    let buf = vec![0x08, 0x00, 0x00, 0x00, 0x01, 0x00, 0x00, 0x00, 0x02, 0x00, 0x00, 0x00];
    assert_eq!(RconPacket::from_bytes(&buf), Err(RconError::Truncated));
}

#[test]
fn decode_empty_payload_frame() {
    let buf = vec![
        0x0a, 0x00, 0x00, 0x00, 0x05, 0x00, 0x00, 0x00, 0x02, 0x00, 0x00, 0x00, 0x00, 0x00,
    ];
    let p = RconPacket::from_bytes(&buf).unwrap();
    assert_eq!(p.request_id, 5);
    assert_eq!(p.packet_type, 2);
    assert_eq!(p.payload, Vec::<u8>::new());
}

#[test]
fn decode_strips_trailing_null_bytes() {
    // payload on the wire is "ab\0": the trailing null is stripped
    let p = RconPacket::new(3, PACKET_TYPE_RESPONSE_VALUE, b"ab\0".to_vec());
    let bytes = p.to_bytes().unwrap();
    let q = RconPacket::from_bytes(&bytes).unwrap();
    assert_eq!(q.payload, b"ab".to_vec());
}

#[test]
fn payload_text_decodes_utf8() {
    let p = RconPacket::new(1, PACKET_TYPE_RESPONSE_VALUE, "3 players online".as_bytes().to_vec());
    assert_eq!(p.payload_text(), "3 players online".to_string());
}

#[test]
fn payload_text_replaces_invalid_bytes() {
    let p = RconPacket::new(1, PACKET_TYPE_RESPONSE_VALUE, vec![0xff, b'o', b'k']);
    assert_eq!(p.payload_text(), "\u{FFFD}ok".to_string());
}

#[test]
fn type_predicates() {
    let auth_response = RconPacket::new(4, PACKET_TYPE_EXECCOMMAND, Vec::new());
    assert!(auth_response.is_auth_response());
    assert!(!auth_response.is_command_response());
    let fragment = RconPacket::new(4, PACKET_TYPE_RESPONSE_VALUE, Vec::new());
    assert!(!fragment.is_auth_response());
    assert!(fragment.is_command_response());
}

#[test]
fn auth_successful_goes_by_the_echoed_id_alone() {
    let ok = RconPacket::new(6, PACKET_TYPE_EXECCOMMAND, Vec::new());
    assert!(ok.auth_successful(6));
    assert!(!ok.auth_successful(7));
    // the declared type does not decide the handshake
    let other_type = RconPacket::new(6, PACKET_TYPE_AUTH, Vec::new());
    assert!(other_type.auth_successful(6));
    assert!(!other_type.auth_successful(7));
}
