use ecr17_protocol::codec::{PacketCodec, PacketType, ACK, EOT, ETX, NAK, SOH, STX};
use ecr17_protocol::lrc::LrcMode;

#[test]
fn encode_application_frames_stx_payload_etx_lrc() {
    let codec = PacketCodec::new(LrcMode::Std);
    let frame = codec.encode_application(b"AB");
    assert_eq!(frame, vec![STX, b'A', b'B', ETX, 0x7C]); // 0x7F ^ 'A' ^ 'B'
}

#[test]
fn application_round_trip_all_modes() {
    for mode in [LrcMode::Stx, LrcMode::Std, LrcMode::Noext, LrcMode::StxNoext] {
        let codec = PacketCodec::new(mode);
        let payload = b"123456780P0000065000";
        let decoded = codec.decode(&codec.encode_application(payload));
        assert_eq!(decoded.packet_type, PacketType::Application);
        assert_eq!(decoded.payload, payload);
        assert!(decoded.valid_lrc);
    }
}

#[test]
fn application_detects_corrupted_lrc() {
    let codec = PacketCodec::new(LrcMode::Std);
    let mut frame = codec.encode_application(b"HELLO");
    *frame.last_mut().unwrap() ^= 0xFF; // corrupt the LRC byte
    let decoded = codec.decode(&frame);
    assert_eq!(decoded.packet_type, PacketType::Application);
    assert_eq!(decoded.payload, b"HELLO");
    assert!(!decoded.valid_lrc);
}

#[test]
fn encode_control_frames_ctrl_etx_lrc() {
    let codec = PacketCodec::new(LrcMode::Std);
    let frame = codec.encode_control(ACK);
    assert_eq!(frame.len(), 3);
    assert_eq!(frame[0], ACK);
    assert_eq!(frame[1], ETX);
}

#[test]
fn decode_ack() {
    let decoded = PacketCodec::new(LrcMode::Std).decode(&[ACK]);
    assert_eq!(decoded.packet_type, PacketType::Ack);
    assert!(decoded.valid_lrc);
}

#[test]
fn decode_nak() {
    let decoded = PacketCodec::new(LrcMode::Std).decode(&[NAK]);
    assert_eq!(decoded.packet_type, PacketType::Nak);
    assert!(decoded.valid_lrc);
}

#[test]
fn decode_full_control_frame_from_encode_control() {
    let codec = PacketCodec::new(LrcMode::Std);
    assert_eq!(codec.decode(&codec.encode_control(ACK)).packet_type, PacketType::Ack);
    assert_eq!(codec.decode(&codec.encode_control(NAK)).packet_type, PacketType::Nak);
}

#[test]
fn decode_empty_is_unknown() {
    let decoded = PacketCodec::new(LrcMode::Std).decode(&[]);
    assert_eq!(decoded.packet_type, PacketType::Unknown);
    assert!(!decoded.valid_lrc);
}

#[test]
fn decode_lone_soh_is_unknown_not_panic() {
    let decoded = PacketCodec::new(LrcMode::Std).decode(&[SOH]);
    assert_eq!(decoded.packet_type, PacketType::Unknown);
    assert!(!decoded.valid_lrc);
}

#[test]
fn decode_progress_update() {
    let codec = PacketCodec::new(LrcMode::Std);
    let msg = b"ELABORAZIONE...     ";
    let mut frame = vec![SOH];
    frame.extend_from_slice(msg);
    frame.push(EOT);
    let decoded = codec.decode(&frame);
    assert_eq!(decoded.packet_type, PacketType::Progress);
    assert_eq!(decoded.payload, msg);
}

#[test]
fn decode_stx_without_etx_is_unknown() {
    let decoded = PacketCodec::new(LrcMode::Std).decode(&[STX, b'A', b'B']);
    assert_eq!(decoded.packet_type, PacketType::Unknown);
    assert!(!decoded.valid_lrc);
}

#[test]
fn decode_stx_with_etx_but_no_lrc_is_unknown() {
    let decoded = PacketCodec::new(LrcMode::Std).decode(&[STX, b'A', ETX]);
    assert_eq!(decoded.packet_type, PacketType::Unknown);
    assert!(!decoded.valid_lrc);
}

#[test]
fn decode_unknown_lead_byte() {
    let decoded = PacketCodec::new(LrcMode::Std).decode(&[0x99, 0x00]);
    assert_eq!(decoded.packet_type, PacketType::Unknown);
    assert!(!decoded.valid_lrc);
}

#[test]
fn decode_stx_with_trailing_bytes_after_lrc_is_unknown() {
    let codec = PacketCodec::new(LrcMode::Std);
    let mut frame = codec.encode_application(b"AB");
    frame.push(0x00);
    let decoded = codec.decode(&frame);
    assert_eq!(decoded.packet_type, PacketType::Unknown);
    assert!(!decoded.valid_lrc);
}

#[test]
fn decode_coalesced_frames_is_unknown() {
    let codec = PacketCodec::new(LrcMode::Std);
    let mut first = codec.encode_application(b"AB");
    first.extend_from_slice(&codec.encode_application(b"CD"));
    let decoded = codec.decode(&first);
    assert_eq!(decoded.packet_type, PacketType::Unknown);
    assert!(!decoded.valid_lrc);
}

#[test]
fn decode_soh_without_eot_is_unknown() {
    let codec = PacketCodec::new(LrcMode::Std);
    let mut frame = vec![SOH];
    frame.extend_from_slice(b"ELABORAZIONE...     ");
    frame.push(0xFF);
    let decoded = codec.decode(&frame);
    assert_eq!(decoded.packet_type, PacketType::Unknown);
    assert!(!decoded.valid_lrc);
}

#[test]
fn codec_reports_its_mode() {
    assert_eq!(PacketCodec::new(LrcMode::Noext).lrc_mode(), LrcMode::Noext);
}

#[test]
fn control_frame_lrc_folds_ctrl_and_etx_under_std() {
    // ctrl + ETX + LRC, the LRC taken over the control byte as payload.
    let frame = PacketCodec::new(LrcMode::Std).encode_control(NAK);
    assert_eq!(frame, vec![NAK, ETX, LrcMode::Std.compute(&[NAK])]);
}

#[test]
fn round_trip_of_empty_payload() {
    let codec = PacketCodec::new(LrcMode::Stx);
    let d = codec.decode(&codec.encode_application(b""));
    assert_eq!(d.packet_type, PacketType::Application);
    assert!(d.payload.is_empty());
    assert!(d.valid_lrc);
}

#[test]
fn payload_with_etx_does_not_round_trip() {
    // The frame ends at the first ETX, so a payload holding ETX is not recovered whole.
    let codec = PacketCodec::new(LrcMode::Std);
    let d = codec.decode(&codec.encode_application(&[b'A', ETX, b'B']));
    assert_ne!(d.payload, vec![b'A', ETX, b'B']);
}
