use ecr17_protocol::codec::{DecodedPacket, PacketCodec, PacketType, ACK, EOT, NAK, SOH};
use ecr17_protocol::error::Ecr17Error;
use ecr17_protocol::lrc::LrcMode;
use ecr17_protocol::session::{Deadline, Ecr17Session, Effect, Phase, Reaction, SessionConfig, Step};
use ecr17_protocol::transport::FakeTransport;

fn fast_config() -> SessionConfig {
    SessionConfig {
        lrc_mode: LrcMode::Std,
        ack_timeout_ms: 40,
        response_timeout_ms: 40,
        retry_count: 2,
        retry_delay_ms: 1,
        receipt_drain_ms: 0,
    }
}

fn codec() -> PacketCodec {
    PacketCodec::new(LrcMode::Std)
}

fn concat(mut a: Vec<u8>, b: Vec<u8>) -> Vec<u8> {
    a.extend(b);
    a
}

fn progress_frame(msg20: &str) -> Vec<u8> {
    let mut f = vec![SOH];
    f.extend_from_slice(msg20.as_bytes());
    f.push(EOT);
    f
}

const RESULT: &str = "123456780E0000DATA"; // code 'E' at pos 10 -> result
const RECEIPT: &str = "123456780SLINE 1"; // code 'S' at pos 10 -> receipt

fn sent_any(t: &FakeTransport, lead: u8) -> bool {
    t.sent_frames().iter().any(|f| f.first() == Some(&lead))
}

/// What an exchange forwarded besides its result.
#[derive(Default)]
struct Forwarded {
    progress: Vec<String>,
    receipts: Vec<String>,
}

fn apply(t: &mut FakeTransport, reaction: Reaction, out: &mut Forwarded) -> Step {
    for e in reaction.effects {
        match e {
            Effect::Control(frame) => {
                let _ = t.send(&frame);
            }
            Effect::Progress(m) => out.progress.push(m),
            Effect::Receipt(l) => out.receipts.push(l),
        }
    }
    reaction.next
}

/// Runs an exchange to its end over the fake transport; "nothing to receive" is the deadline
/// passing.
fn drive(
    session: &mut Ecr17Session,
    t: &mut FakeTransport,
    first: Step,
    out: &mut Forwarded,
) -> Result<Option<DecodedPacket>, Ecr17Error> {
    let mut step = first;
    loop {
        step = match step {
            Step::Send(frame) | Step::Retransmit { frame, .. } => {
                let sent = t.send(&frame);
                let reaction = session.on_sent(sent);
                apply(t, reaction, out)
            }
            Step::Wait(_) => {
                if let Some(pkt) = session.next_frame() {
                    let reaction = session.on_frame(pkt);
                    apply(t, reaction, out)
                } else {
                    match t.try_recv() {
                        Some(Ok(bytes)) => {
                            session.push_bytes(&bytes);
                            Step::Wait(Deadline::Keep)
                        }
                        Some(Err(_)) => {
                            let reaction = session.on_disconnected();
                            apply(t, reaction, out)
                        }
                        None => {
                            let reaction = session.on_timeout();
                            apply(t, reaction, out)
                        }
                    }
                }
            }
            Step::Done(r) => return r,
        }
    }
}

fn exchange(session: &mut Ecr17Session, t: &mut FakeTransport, payload: &str, out: &mut Forwarded) -> Result<DecodedPacket, Ecr17Error> {
    let first = session.begin_exchange(payload);
    drive(session, t, first, out).map(|p| p.expect("an exchange ends with a result"))
}

fn send_ack_only(session: &mut Ecr17Session, t: &mut FakeTransport, payload: &str) -> Result<(), Ecr17Error> {
    let first = session.begin_ack_only(payload);
    let mut out = Forwarded::default();
    drive(session, t, first, &mut out).map(|p| assert!(p.is_none()))
}

#[test]
fn happy_path_returns_result_and_acks() {
    let c = codec();
    let mut t = FakeTransport::new();
    t.enqueue_response(concat(c.encode_control(ACK), c.encode_application(RESULT.as_bytes())));
    let mut session = Ecr17Session::new(fast_config());
    let mut out = Forwarded::default();

    let result = exchange(&mut session, &mut t, "123456780P...", &mut out).unwrap();
    assert_eq!(result.packet_type, PacketType::Application);
    assert!(result.valid_lrc);
    assert_eq!(result.payload, RESULT.as_bytes());
    assert_eq!(t.application_request_count(), 1);
    assert!(sent_any(&t, ACK));
    assert_eq!(session.phase(), Phase::Finished);
}

#[test]
fn nak_triggers_retransmit_then_succeeds() {
    let c = codec();
    let mut t = FakeTransport::new();
    t.enqueue_response(c.encode_control(NAK));
    t.enqueue_response(concat(c.encode_control(ACK), c.encode_application(RESULT.as_bytes())));
    let mut session = Ecr17Session::new(fast_config());
    let mut out = Forwarded::default();

    let result = exchange(&mut session, &mut t, "123456780P...", &mut out).unwrap();
    assert_eq!(result.payload, RESULT.as_bytes());
    assert_eq!(t.application_request_count(), 2);
}

#[test]
fn ack_timeout_exhausts_retries_then_errors() {
    let mut t = FakeTransport::new();
    let mut session = Ecr17Session::new(fast_config());
    let mut out = Forwarded::default();
    let err = exchange(&mut session, &mut t, "123456780P...", &mut out).unwrap_err();
    assert!(matches!(err, Ecr17Error::AckTimeout { attempts: 3 }));
    assert_eq!(t.application_request_count(), 3);
}

#[test]
fn bad_lrc_response_sends_nak() {
    let c = codec();
    let mut t = FakeTransport::new();
    let mut bad = c.encode_application(RESULT.as_bytes());
    *bad.last_mut().unwrap() ^= 0xFF;
    t.enqueue_response(concat(c.encode_control(ACK), bad));
    let mut session = Ecr17Session::new(fast_config());
    let mut out = Forwarded::default();

    let err = exchange(&mut session, &mut t, "123456780P...", &mut out).unwrap_err();
    assert!(matches!(err, Ecr17Error::ResponseTimeout));
    assert!(sent_any(&t, NAK));
}

#[test]
fn progress_messages_forwarded() {
    let c = codec();
    let mut response = c.encode_control(ACK);
    response.extend(progress_frame("ATTENDERE PREGO     "));
    response.extend(c.encode_application(RESULT.as_bytes()));
    let mut t = FakeTransport::new();
    t.enqueue_response(response);
    let mut session = Ecr17Session::new(fast_config());
    let mut out = Forwarded::default();

    let result = exchange(&mut session, &mut t, "123456780P...", &mut out).unwrap();
    assert_eq!(result.payload, RESULT.as_bytes());
    assert_eq!(out.progress, vec!["ATTENDERE PREGO     ".to_string()]);
}

#[test]
fn receipt_lines_forwarded_before_result() {
    let c = codec();
    let mut response = c.encode_control(ACK);
    response.extend(c.encode_application(RECEIPT.as_bytes()));
    response.extend(c.encode_application(RESULT.as_bytes()));
    let mut t = FakeTransport::new();
    t.enqueue_response(response);
    let mut session = Ecr17Session::new(fast_config());
    let mut out = Forwarded::default();

    let result = exchange(&mut session, &mut t, "123456780P...", &mut out).unwrap();
    assert_eq!(result.payload, RESULT.as_bytes());
    assert_eq!(out.receipts, vec![RECEIPT.to_string()]);
}

#[test]
fn result_before_ack_is_not_lost() {
    let c = codec();
    let mut t = FakeTransport::new();
    t.enqueue_response(c.encode_application(RESULT.as_bytes()));
    let mut session = Ecr17Session::new(fast_config());
    let mut out = Forwarded::default();

    let result = exchange(&mut session, &mut t, "123456780P...", &mut out).unwrap();
    assert_eq!(result.payload, RESULT.as_bytes());
    assert_eq!(t.application_request_count(), 1);
    assert!(sent_any(&t, ACK));
}

#[test]
fn response_timeout_after_ack_errors() {
    let c = codec();
    let mut t = FakeTransport::new();
    t.enqueue_response(c.encode_control(ACK));
    let mut session = Ecr17Session::new(fast_config());
    let mut out = Forwarded::default();
    assert!(matches!(
        exchange(&mut session, &mut t, "123456780P...", &mut out),
        Err(Ecr17Error::ResponseTimeout)
    ));
}

#[test]
fn disconnect_during_exchange_errors() {
    let mut t = FakeTransport::new();
    t.disconnect_on_next_request();
    let mut session = Ecr17Session::new(fast_config());
    let mut out = Forwarded::default();
    assert!(matches!(
        exchange(&mut session, &mut t, "123456780P...", &mut out),
        Err(Ecr17Error::Disconnected)
    ));
}

#[test]
fn recovers_and_succeeds_after_reconnect() {
    let mut t = FakeTransport::new();
    t.disconnect_on_next_request();
    let mut session = Ecr17Session::new(fast_config());
    let mut out = Forwarded::default();
    assert!(matches!(
        exchange(&mut session, &mut t, "123456780P...", &mut out),
        Err(Ecr17Error::Disconnected)
    ));

    let c = codec();
    t.rearm();
    t.enqueue_response(concat(c.encode_control(ACK), c.encode_application(RESULT.as_bytes())));
    let result = exchange(&mut session, &mut t, "123456780P...", &mut out).unwrap();
    assert_eq!(result.payload, RESULT.as_bytes());
}

#[test]
fn send_ack_only_returns_on_ack() {
    let c = codec();
    let mut t = FakeTransport::new();
    t.enqueue_response(c.encode_control(ACK));
    let mut session = Ecr17Session::new(fast_config());
    send_ack_only(&mut session, &mut t, "123456780E1").unwrap();
    assert_eq!(t.application_request_count(), 1);
}

#[test]
fn send_ack_only_retransmits_on_nak() {
    let c = codec();
    let mut t = FakeTransport::new();
    t.enqueue_response(c.encode_control(NAK));
    t.enqueue_response(c.encode_control(ACK));
    let mut session = Ecr17Session::new(fast_config());
    send_ack_only(&mut session, &mut t, "123456780E0").unwrap();
    assert_eq!(t.application_request_count(), 2);
}

#[test]
fn send_ack_only_times_out() {
    let mut t = FakeTransport::new();
    let mut session = Ecr17Session::new(fast_config());
    assert!(matches!(
        send_ack_only(&mut session, &mut t, "123456780E1"),
        Err(Ecr17Error::AckTimeout { .. })
    ));
}

#[test]
fn exchange_with_additional_data_sends_two_requests() {
    let c = codec();
    let mut t = FakeTransport::new();
    t.enqueue_response(c.encode_control(ACK));
    t.enqueue_response(concat(c.encode_control(ACK), c.encode_application(RESULT.as_bytes())));
    let mut session = Ecr17Session::new(fast_config());
    let mut out = Forwarded::default();

    let first = session.begin_exchange_with_additional_data("123456780P...", "123456780U...");
    let result = drive(&mut session, &mut t, first, &mut out).unwrap().unwrap();
    assert_eq!(result.payload, RESULT.as_bytes());
    assert_eq!(t.application_request_count(), 2);
}

#[test]
fn receipt_drain_forwards_receipts_after_result() {
    let c = codec();
    let mut response = c.encode_control(ACK);
    response.extend(c.encode_application(RESULT.as_bytes()));
    response.extend(c.encode_application(RECEIPT.as_bytes()));
    let mut t = FakeTransport::new();
    t.enqueue_response(response);
    let mut cfg = fast_config();
    cfg.receipt_drain_ms = 30;
    let mut session = Ecr17Session::new(cfg);
    let mut out = Forwarded::default();

    let result = exchange(&mut session, &mut t, "123456780P...", &mut out).unwrap();
    assert_eq!(result.payload, RESULT.as_bytes());
    assert_eq!(out.receipts, vec![RECEIPT.to_string()]);
}

#[test]
fn default_session_config_values() {
    let d = SessionConfig::default();
    assert_eq!(d.lrc_mode, LrcMode::Std);
    assert_eq!(d.ack_timeout_ms, 2000);
    assert_eq!(d.response_timeout_ms, 60_000);
    assert_eq!(d.retry_count, 3);
    assert_eq!(d.retry_delay_ms, 200);
    assert_eq!(d.receipt_drain_ms, 0);
}

#[test]
fn first_step_sends_the_framed_request() {
    let mut session = Ecr17Session::new(fast_config());
    assert_eq!(session.phase(), Phase::Idle);
    match session.begin_exchange("AB") {
        Step::Send(frame) => assert_eq!(frame, codec().encode_application(b"AB")),
        other => panic!("unexpected first step {other:?}"),
    }
    assert_eq!(session.phase(), Phase::AwaitAck);
    assert!(session.is_sending());
}

#[test]
fn send_failure_ends_the_exchange() {
    let mut session = Ecr17Session::new(fast_config());
    let _ = session.begin_exchange("AB");
    let reaction = session.on_sent(Err(Ecr17Error::Disconnected));
    assert!(reaction.effects.is_empty());
    assert!(matches!(reaction.next, Step::Done(Err(Ecr17Error::Disconnected))));
}

#[test]
fn retransmission_waits_the_configured_delay() {
    let c = codec();
    let mut t = FakeTransport::new();
    t.enqueue_response(c.encode_control(NAK));
    let mut session = Ecr17Session::new(fast_config());
    let first = session.begin_exchange("AB");
    let Step::Send(frame) = first else { panic!("expected a send") };
    let sent = t.send(&frame);
    let r = session.on_sent(sent);
    assert!(matches!(r.next, Step::Wait(Deadline::Reset(40))));
    session.push_bytes(&t.try_recv().unwrap().unwrap());
    let pkt = session.next_frame().unwrap();
    assert_eq!(pkt.packet_type, PacketType::Nak);
    let r = session.on_frame(pkt);
    match r.next {
        Step::Retransmit { delay_ms, frame: again } => {
            assert_eq!(delay_ms, 1);
            assert_eq!(again, frame);
        }
        other => panic!("unexpected step {other:?}"),
    }
}

#[test]
fn junk_before_a_frame_is_skipped() {
    let c = codec();
    let mut session = Ecr17Session::new(fast_config());
    let _ = session.begin_exchange("AB");
    let mut bytes = vec![0x99, 0x00];
    bytes.extend(c.encode_control(ACK));
    session.push_bytes(&bytes);
    assert_eq!(session.next_frame().unwrap().packet_type, PacketType::Ack);
    assert!(session.next_frame().is_none());
}

#[test]
fn incomplete_frame_waits_for_more_bytes() {
    let c = codec();
    let mut session = Ecr17Session::new(fast_config());
    let frame = c.encode_application(b"HELLO");
    session.push_bytes(&frame[..frame.len() - 1]);
    assert!(session.next_frame().is_none());
    session.push_bytes(&frame[frame.len() - 1..]);
    let pkt = session.next_frame().unwrap();
    assert_eq!(pkt.payload, b"HELLO");
    assert!(pkt.valid_lrc);
}

#[test]
fn stray_ack_byte_is_resynced_not_a_false_ack() {
    let c = codec();
    let mut session = Ecr17Session::new(fast_config());
    let _ = session.begin_exchange("AB");
    // A lone ACK byte followed by an application frame: not an acknowledgement.
    let mut bytes = vec![ACK];
    bytes.extend(c.encode_application(RESULT.as_bytes()));
    session.push_bytes(&bytes);
    let pkt = session.next_frame().unwrap();
    assert_eq!(pkt.packet_type, PacketType::Application);
    assert_eq!(pkt.payload, RESULT.as_bytes());
}

#[test]
fn control_frame_with_bad_lrc_is_resynced() {
    let c = codec();
    let mut session = Ecr17Session::new(fast_config());
    let mut bad = c.encode_control(ACK);
    bad[2] ^= 0xFF;
    session.push_bytes(&bad);
    // Nothing valid yet: the corrupted frame is dropped byte by byte.
    assert!(session.next_frame().is_none());
    session.push_bytes(&c.encode_control(NAK));
    assert_eq!(session.next_frame().unwrap().packet_type, PacketType::Nak);
    assert!(session.next_frame().is_none());
}

#[test]
fn corrupted_ack_does_not_complete_the_handshake() {
    let c = codec();
    let mut bad = c.encode_control(ACK);
    bad[2] ^= 0xFF;
    let mut t = FakeTransport::new();
    t.enqueue_response(bad);
    let mut session = Ecr17Session::new(fast_config());
    let mut out = Forwarded::default();
    let err = exchange(&mut session, &mut t, "123456780P...", &mut out).unwrap_err();
    assert!(matches!(err, Ecr17Error::AckTimeout { attempts: 3 }));
}
