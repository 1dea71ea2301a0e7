use continuity_decoder::messages::{
    AirPrintMessage, AirplayTargetMessage, HandoffMessage, Message, NearbyInfoMessage,
    ProximityPairMessage,
};
use continuity_decoder::{Error, ErrorKind};

fn prox_buffer() -> Vec<u8> {
    // opcode 0x07, declared length 13, model 0x0220, status 0x2B,
    // batteries 0x8A/0x15, lid 3, color 2, two payload bytes.
    vec![
        0x07, 0x0D, 0xAA, 0x02, 0x20, 0x2B, 0x8A, 0x15, 0x03, 0x02, 0xFF, 0xDE, 0xAD, 0x00, 0x00,
    ]
}

#[test]
fn proximity_decode_reads_every_field() {
    let msg = ProximityPairMessage::decode(&prox_buffer()).unwrap();
    assert_eq!(msg.header.opcode, 0x07);
    assert_eq!(msg.header.length, 13);
    assert_eq!(msg.device_model, 0x0220);
    assert_eq!(msg.device_status, 0x2B);
    assert_eq!(msg.battery1, 0x8A);
    assert_eq!(msg.battery2, 0x15);
    assert_eq!(msg.lid_open_count, 0x03);
    assert_eq!(msg.device_color, 0x02);
    assert_eq!(msg.encrypted_payload, vec![0xDE, 0xAD]);
}

#[test]
fn airprint_decode_reads_every_field() {
    let mut data = vec![0x03, 0x16, 0x15, 0x00, 0x06, 0x1F, 0x90, 192, 168, 1, 10];
    data.extend_from_slice(&[0, 0, 0, 0, 0, 0, 0, 0, 0, 0, 0, 5, 0xC4]);
    let msg = AirPrintMessage::decode(&data).unwrap();
    assert_eq!(msg.header.opcode, 0x03);
    assert_eq!(msg.header.length, 22);
    assert_eq!(msg.connection_info, 0x15);
    assert_eq!(msg.rp_index_value, 6);
    assert_eq!(msg.port, 8080);
    assert_eq!(msg.ip4_address, 0xC0A8_010A);
    assert_eq!(msg.ip6_address, 5);
    assert_eq!(msg.measured_power, 0xC4);
}

#[test]
fn airprint_decode_composes_wide_fields_big_endian() {
    let mut data = vec![0x03, 0x16, 0x15, 0xAB, 0xCD, 0x12, 0x34, 0xDE, 0xAD, 0xBE, 0xEF];
    data.extend_from_slice(&[
        0x01, 0x02, 0x03, 0x04, 0x05, 0x06, 0x07, 0x08, 0x09, 0x0A, 0x0B, 0x0C, 0x7F,
    ]);
    let msg = AirPrintMessage::decode(&data).unwrap();
    assert_eq!(msg.rp_index_value, 0xABCD);
    assert_eq!(msg.port, 0x1234);
    assert_eq!(msg.ip4_address, 0xDEAD_BEEF);
    assert_eq!(msg.ip6_address, 0x0102_0304_0506_0708_090A_0B0C);
    assert_eq!(msg.measured_power, 0x7F);
}

#[test]
fn airplay_target_decode_reads_every_field() {
    let data = vec![0x09, 0x06, 0x11, 0x22, 10, 0, 0, 1];
    let msg = AirplayTargetMessage::decode(&data).unwrap();
    assert_eq!(msg.header.opcode, 0x09);
    assert_eq!(msg.header.length, 6);
    assert_eq!(msg.flags, 0x11);
    assert_eq!(msg.seed, 0x22);
    assert_eq!(msg.ip4_address, 0x0A00_0001);
}

#[test]
fn handoff_decode_reads_every_field() {
    let data = vec![0x0C, 0x08, 0x01, 0x12, 0x34, 0x56, 0xCA, 0xFE, 0x00, 0x00];
    let msg = HandoffMessage::decode(&data).unwrap();
    assert_eq!(msg.header.opcode, 0x0C);
    assert_eq!(msg.header.length, 8);
    assert_eq!(msg.clipboard_status, 0x01);
    assert_eq!(msg.iv, 0x1234);
    assert_eq!(msg.gcm_auth, 0x56);
    assert_eq!(msg.encrypted_payload, vec![0xCA, 0xFE]);
}

#[test]
fn nearby_info_decode_repeats_the_tag_source_byte() {
    let data = vec![0x10, 0x03, 0xA5, 0x42, 0xAB];
    let msg = NearbyInfoMessage::decode(&data).unwrap();
    assert_eq!(msg.header.opcode, 0x10);
    assert_eq!(msg.header.length, 3);
    assert_eq!(msg.status_flags, 0x0A);
    assert_eq!(msg.action_code, 0x05);
    assert_eq!(msg.data_flags, 0x42);
    assert_eq!(msg.auth_tag, 0x00AB_ABAB);
}

#[test]
fn buffer_shorter_than_declared_length_fails() {
    // Each kind: buffer ends before declared length + 2.
    assert!(AirPrintMessage::decode(&[0x03, 0x16, 0x15]).is_err());
    assert!(AirplayTargetMessage::decode(&[0x09, 0x06, 0x11]).is_err());
    assert!(NearbyInfoMessage::decode(&[0x10, 0x03, 0xA5]).is_err());
    assert!(ProximityPairMessage::decode(&[0x07, 0x0D, 0xAA]).is_err());
    assert!(HandoffMessage::decode(&[0x0C, 0x08, 0x01]).is_err());
}

#[test]
fn short_buffer_error_names_the_length_check() {
    let err = AirplayTargetMessage::decode(&[0x09, 0x06, 0x11]).unwrap_err();
    assert!(matches!(err.kind, ErrorKind::DecodeError));
    assert_eq!(err.message.as_deref(), Some("Packet length != buffer length"));
}

#[test]
fn buffer_without_header_fails() {
    let err = ProximityPairMessage::decode(&[0x07]).unwrap_err();
    assert!(matches!(err.kind, ErrorKind::DecodeError));
    assert_eq!(
        err.message.as_deref(),
        Some("Length mismatch. Cannot read opcode + length")
    );
}

#[test]
fn mismatched_opcode_fails_for_every_kind() {
    // A buffer long enough for any kind, but with the wrong first byte.
    let mut data = vec![0x42u8; 32];
    data[1] = 22;
    assert!(ProximityPairMessage::decode(&data).is_err());
    assert!(AirPrintMessage::decode(&data).is_err());
    assert!(AirplayTargetMessage::decode(&data).is_err());
    assert!(HandoffMessage::decode(&data).is_err());
    assert!(NearbyInfoMessage::decode(&data).is_err());
}

#[test]
fn mismatched_opcode_error_names_the_expected_opcode() {
    let err = ProximityPairMessage::decode(&[0x08, 0x00]).unwrap_err();
    assert_eq!(
        err.message.as_deref(),
        Some("Tried to decode Proximity Pair message with invalid opcode. Expected 0x07")
    );
}

#[test]
fn dispatcher_routes_each_known_opcode() {
    let prox = Message::decode(&prox_buffer()).unwrap();
    assert!(matches!(prox, Message::ProximityPairing(_)));

    let airplay = Message::decode(&[0x09, 0x06, 0x11, 0x22, 10, 0, 0, 1]).unwrap();
    assert!(matches!(airplay, Message::AirplayTarget(_)));

    let mut airprint = vec![0x03, 0x16, 0x15, 0x00, 0x06, 0x1F, 0x90, 192, 168, 1, 10];
    airprint.extend_from_slice(&[0, 0, 0, 0, 0, 0, 0, 0, 0, 0, 0, 5, 0xC4]);
    let airprint = Message::decode(&airprint).unwrap();
    assert!(matches!(airprint, Message::Airprint(_)));

    let handoff =
        Message::decode(&[0x0C, 0x08, 0x01, 0x12, 0x34, 0x56, 0xCA, 0xFE, 0x00, 0x00]).unwrap();
    assert!(matches!(handoff, Message::Handoff(_)));

    let nearby = Message::decode(&[0x10, 0x03, 0xA5, 0x42, 0xAB]).unwrap();
    assert!(matches!(nearby, Message::NearbyInfo(_)));
}

#[test]
fn dispatcher_rejects_unknown_opcode_with_hex_text() {
    let err = Message::decode(&[0x99, 0x01, 0x02, 0x03]).unwrap_err();
    assert!(matches!(err.kind, ErrorKind::DecodeError));
    let msg = err.message.unwrap();
    assert!(msg.contains("99"), "diagnostic should name the opcode: {msg}");
    assert_eq!(msg, "Unknown opcode: 99");
}

#[test]
fn dispatcher_rejects_empty_buffer() {
    let err = Message::decode(&[]).unwrap_err();
    assert!(matches!(err.kind, ErrorKind::DecodeError));
    assert_eq!(
        err.message.as_deref(),
        Some("Length mismatch. Cannot read opcode + length")
    );
}

#[test]
fn fixed_fields_too_short_fails_with_decode_error() {
    // Accepted envelopes whose buffers cannot carry the kind's fixed
    // fields: each fails with a returned error, never a panic.
    let err = ProximityPairMessage::decode(&[0x07, 0x05, 0, 0, 0, 0, 0]).unwrap_err();
    assert!(matches!(err.kind, ErrorKind::DecodeError));
    assert_eq!(
        err.message.as_deref(),
        Some("Packet length too short for fixed fields")
    );

    let err = HandoffMessage::decode(&[0x0C, 0x03, 0, 0, 0]).unwrap_err();
    assert_eq!(
        err.message.as_deref(),
        Some("Packet length too short for fixed fields")
    );

    let err = AirPrintMessage::decode(&[0x03, 0x02, 0x15, 0, 0, 0]).unwrap_err();
    assert_eq!(
        err.message.as_deref(),
        Some("Packet length too short for fixed fields")
    );

    let err = AirplayTargetMessage::decode(&[0x09, 0x02, 1, 1]).unwrap_err();
    assert_eq!(
        err.message.as_deref(),
        Some("Packet length too short for fixed fields")
    );

    let err = NearbyInfoMessage::decode(&[0x10, 0x01, 0xA5]).unwrap_err();
    assert_eq!(
        err.message.as_deref(),
        Some("Packet length too short for fixed fields")
    );
}

#[test]
fn dispatcher_rejects_fixed_fields_too_short() {
    let err = Message::decode(&[0x07, 0x05, 0, 0, 0, 0, 0]).unwrap_err();
    assert!(matches!(err.kind, ErrorKind::DecodeError));
    assert_eq!(
        err.message.as_deref(),
        Some("Packet length too short for fixed fields")
    );
}

#[test]
fn short_declared_length_still_reads_fixed_fields() {
    // The envelope check bounds only the declared length; the fixed
    // fields are read at their offsets as long as the buffer reaches
    // them.
    let mut data = vec![0x03, 0x05, 0x15, 0x00, 0x06, 0x1F, 0x90, 192, 168, 1, 10];
    data.extend_from_slice(&[0, 0, 0, 0, 0, 0, 0, 0, 0, 0, 0, 5, 0xC4]);
    let msg = AirPrintMessage::decode(&data).unwrap();
    assert_eq!(msg.header.length, 5);
    assert_eq!(msg.measured_power, 0xC4);

    let msg = NearbyInfoMessage::decode(&[0x10, 0x00, 0xA5, 0x42, 0xAB]).unwrap();
    assert_eq!(msg.header.length, 0);
    assert_eq!(msg.auth_tag, 0x00AB_ABAB);
}

#[test]
fn repeated_decoding_is_deterministic() {
    let data = prox_buffer();
    let a = ProximityPairMessage::decode(&data).unwrap();
    let b = ProximityPairMessage::decode(&data).unwrap();
    assert_eq!(a.header.opcode, b.header.opcode);
    assert_eq!(a.header.length, b.header.length);
    assert_eq!(a.device_model, b.device_model);
    assert_eq!(a.device_status, b.device_status);
    assert_eq!(a.battery1, b.battery1);
    assert_eq!(a.battery2, b.battery2);
    assert_eq!(a.lid_open_count, b.lid_open_count);
    assert_eq!(a.device_color, b.device_color);
    assert_eq!(a.encrypted_payload, b.encrypted_payload);
}

#[test]
fn error_new_keeps_kind_and_text() {
    let err = Error::new(ErrorKind::DecodeError, "something went wrong");
    assert!(matches!(err.kind, ErrorKind::DecodeError));
    assert_eq!(err.message.as_deref(), Some("something went wrong"));
}

#[test]
fn error_from_kind_carries_no_text() {
    let err = Error::from(ErrorKind::DecodeError);
    assert!(matches!(err.kind, ErrorKind::DecodeError));
    assert!(err.message.is_none());
}
