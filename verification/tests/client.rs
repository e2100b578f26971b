use ecr17_protocol::client::{
    as_str, card_verification_result, close_session_result, map_card_type, map_entry_mode, opt_i32, opt_i64,
    opt_str, payment_result, pre_auth_result, raw_datetime_to_iso, reversal_result, session_config, status_result,
    totals_result, vas_result, Ecr17Client, ExchangeRequest, RecoveryPlan,
};
use ecr17_protocol::codec::{DecodedPacket, PacketCodec, PacketType, ACK, EOT, SOH};
use ecr17_protocol::error::Ecr17Error;
use ecr17_protocol::lrc::LrcMode;
use ecr17_protocol::session::{Deadline, Ecr17Session, Effect, Reaction, Step};
use ecr17_protocol::transport::FakeTransport;
use ecr17_protocol::types::{
    CardType, CardVerificationRequest, Ecr17Config, IncrementalAuthRequest, PaymentCardType, PaymentRequest,
    PreAuthClosureRequest, PreAuthRequest, ReversalRequest, TokenizationRequest, TokenizationService,
    TransactionEntryMode, TransactionOutcome,
};

fn config() -> Ecr17Config {
    Ecr17Config {
        host: "127.0.0.1".into(),
        port: None,
        terminal_id: "12345678".into(),
        cash_register_id: "00000001".into(),
        lrc_mode: Some(LrcMode::Std),
        keep_alive: None,
        auto_reconnect: Some(true),
        connection_timeout_ms: None,
        response_timeout_ms: Some(40),
        ack_timeout_ms: Some(40),
        receipt_drain_ms: None,
        retry_count: Some(2),
        retry_delay_ms: Some(1),
        debug: None,
    }
}

// A payment result ('E' code, result "00" = OK) with a PAN.
fn ok_payment_result() -> Vec<u8> {
    let c = PacketCodec::new(LrcMode::Std);
    let mut payload = String::from("123456780E00");
    payload.push_str(&"0".repeat(19)); // pan
    payload.push_str("ICC");
    payload.push_str("AUTH01");
    payload.push_str("2111520");
    payload.push('2');
    payload.push_str("ACQ        ");
    payload.push_str("000042");
    payload.push_str("000099");
    c.encode_application(payload.as_bytes())
}

fn ack_then(result: Vec<u8>) -> Vec<u8> {
    let mut r = PacketCodec::new(LrcMode::Std).encode_control(ACK);
    r.extend(result);
    r
}

/// A client over the fake transport, run synchronously: "nothing to receive" is the
/// deadline passing.
struct Harness {
    client: Ecr17Client,
    session: Ecr17Session,
    transport: FakeTransport,
    progress: Vec<String>,
}

impl Harness {
    fn new(transport: FakeTransport, config: Ecr17Config) -> Self {
        let client = Ecr17Client::new(config);
        let session = Ecr17Session::new(client.session_config());
        Harness { client, session, transport, progress: Vec::new() }
    }

    fn apply(&mut self, reaction: Reaction) -> Step {
        for e in reaction.effects {
            match e {
                Effect::Control(frame) => {
                    let _ = self.transport.send(&frame);
                }
                Effect::Progress(m) => self.progress.push(m),
                Effect::Receipt(_) => {}
            }
        }
        reaction.next
    }

    fn once(&mut self, req: &ExchangeRequest) -> Result<Option<DecodedPacket>, Ecr17Error> {
        let mut step = if req.ack_only {
            self.session.begin_ack_only(&req.main_payload)
        } else if let Some(additional) = &req.additional_payload {
            self.session.begin_exchange_with_additional_data(&req.main_payload, additional)
        } else {
            self.session.begin_exchange(&req.main_payload)
        };
        loop {
            step = match step {
                Step::Send(frame) | Step::Retransmit { frame, .. } => {
                    let sent = self.transport.send(&frame);
                    let r = self.session.on_sent(sent);
                    self.apply(r)
                }
                Step::Wait(_) => {
                    if let Some(pkt) = self.session.next_frame() {
                        let r = self.session.on_frame(pkt);
                        self.apply(r)
                    } else {
                        match self.transport.try_recv() {
                            Some(Ok(bytes)) => {
                                self.session.push_bytes(&bytes);
                                Step::Wait(Deadline::Keep)
                            }
                            Some(Err(_)) => {
                                let r = self.session.on_disconnected();
                                self.apply(r)
                            }
                            None => {
                                let r = self.session.on_timeout();
                                self.apply(r)
                            }
                        }
                    }
                }
                Step::Done(r) => return r,
            }
        }
    }

    fn run(&mut self, req: Result<ExchangeRequest, Ecr17Error>) -> Result<Option<DecodedPacket>, Ecr17Error> {
        if !self.transport.is_connected() {
            self.transport.connect()?;
        }
        let req = req?;
        match self.once(&req) {
            Ok(p) => Ok(p),
            Err(original) => {
                let plan = self.client.recovery_plan(self.transport.is_connected(), req.safe_to_retry);
                if plan.reconnect && self.transport.connect().is_err() {
                    return Err(original);
                }
                if plan.replay {
                    self.once(&req)
                } else {
                    Err(original)
                }
            }
        }
    }
}

fn payment(amount_cents: i64, payment_type: Option<PaymentCardType>) -> PaymentRequest {
    PaymentRequest {
        amount_cents,
        cash_register_id: None,
        payment_type,
        card_already_present: None,
        receipt_text: None,
        tokenization: None,
    }
}

#[test]
fn iso_datetime_conversion() {
    assert_eq!(raw_datetime_to_iso("0102251530"), "2025-02-01T15:30:00");
    assert_eq!(raw_datetime_to_iso("short"), "");
}

#[test]
fn pay_maps_an_approved_result() {
    let mut t = FakeTransport::new();
    t.enqueue_response(ack_then(ok_payment_result()));
    let mut h = Harness::new(t, config());
    let req = payment(650, Some(PaymentCardType::Credit));
    let pkt = h.run(h.client.pay_request(&req)).unwrap().unwrap();
    let result = payment_result(&as_str(&pkt));
    assert_eq!(result.outcome, TransactionOutcome::Approved);
    assert_eq!(result.result_code, "00");
    assert_eq!(result.entry_mode, Some(TransactionEntryMode::Icc));
    assert_eq!(result.card_type, Some(CardType::Credit));
    assert_eq!(result.auth_code.as_deref(), Some("AUTH01"));
    assert_eq!(result.stan.as_deref(), Some("000042"));
}

#[test]
fn client_forwards_progress_to_listener() {
    let c = PacketCodec::new(LrcMode::Std);
    let mut response = c.encode_control(ACK);
    let mut progress_frame = vec![SOH];
    progress_frame.extend_from_slice(b"ATTENDERE PREGO     ");
    progress_frame.push(EOT);
    response.extend(progress_frame);
    response.extend(ok_payment_result());
    let mut t = FakeTransport::new();
    t.enqueue_response(response);
    let mut h = Harness::new(t, config());
    let req = payment(650, None);
    h.run(h.client.pay_request(&req)).unwrap();
    assert_eq!(h.progress, vec!["ATTENDERE PREGO     ".to_string()]);
}

#[test]
fn status_maps_iso_datetime() {
    let c = PacketCodec::new(LrcMode::Std);
    let mut payload = String::from("123456780s");
    payload.push_str(&"0".repeat(10));
    payload.push_str("0102251530");
    payload.push('2');
    payload.push_str("V1.2.3");
    let mut t = FakeTransport::new();
    t.enqueue_response(ack_then(c.encode_application(payload.as_bytes())));
    let mut h = Harness::new(t, config());
    let pkt = h.run(h.client.status_request()).unwrap().unwrap();
    let s = status_result(&as_str(&pkt)).unwrap();
    assert_eq!(s.terminal_id, "12345678");
    assert_eq!(s.status, 2);
    assert_eq!(s.terminal_date_time, "2025-02-01T15:30:00");
    assert_eq!(s.software_release, "V1.2.3");
}

#[test]
fn financial_command_not_replayed_on_drop() {
    let mut t = FakeTransport::new();
    t.disconnect_on_next_request();
    let mut h = Harness::new(t, config()); // auto_reconnect = true
    let req = payment(1000, None);
    let err = h.run(h.client.pay_request(&req)).unwrap_err();
    assert!(matches!(err, Ecr17Error::Disconnected));
    // Exactly one application request was sent — never a blind financial replay.
    assert_eq!(h.transport.application_request_count(), 1);
}

#[test]
fn safe_command_retried_after_reconnect() {
    let c = PacketCodec::new(LrcMode::Std);
    let mut t = FakeTransport::new();
    t.disconnect_on_next_request();
    let mut payload = String::from("123456780s");
    payload.push_str(&"0".repeat(10));
    payload.push_str("0102251530");
    payload.push('2');
    payload.push_str("V1");
    t.enqueue_response(ack_then(c.encode_application(payload.as_bytes())));
    let mut h = Harness::new(t, config());
    let pkt = h.run(h.client.status_request()).unwrap().unwrap();
    assert_eq!(status_result(&as_str(&pkt)).unwrap().status, 2);
    assert_eq!(h.transport.application_request_count(), 2);
}

#[test]
fn safe_command_not_retried_without_auto_reconnect() {
    let mut t = FakeTransport::new();
    t.disconnect_on_next_request();
    let mut cfg = config();
    cfg.auto_reconnect = None;
    let mut h = Harness::new(t, cfg);
    assert!(matches!(h.run(h.client.status_request()), Err(Ecr17Error::Disconnected)));
    assert_eq!(h.transport.application_request_count(), 1);
}

#[test]
fn recovery_plan_never_replays_a_financial_command() {
    let client = Ecr17Client::new(config());
    assert_eq!(client.recovery_plan(false, false), RecoveryPlan { reconnect: true, replay: false });
    assert_eq!(client.recovery_plan(true, false), RecoveryPlan { reconnect: false, replay: false });
    assert_eq!(client.recovery_plan(false, true), RecoveryPlan { reconnect: true, replay: true });
    assert_eq!(client.recovery_plan(true, true), RecoveryPlan { reconnect: false, replay: false });
    let mut cfg = config();
    cfg.auto_reconnect = Some(false);
    let manual = Ecr17Client::new(cfg);
    assert_eq!(manual.recovery_plan(false, true), RecoveryPlan { reconnect: false, replay: false });
}

#[test]
fn session_config_takes_defaults_for_unset_values() {
    let mut cfg = config();
    cfg.lrc_mode = None;
    cfg.ack_timeout_ms = None;
    cfg.response_timeout_ms = None;
    cfg.retry_count = None;
    cfg.retry_delay_ms = None;
    cfg.receipt_drain_ms = None;
    let s = session_config(&cfg);
    assert_eq!(s.lrc_mode, LrcMode::Std);
    assert_eq!(s.ack_timeout_ms, 2000);
    assert_eq!(s.response_timeout_ms, 60_000);
    assert_eq!(s.retry_count, 3);
    assert_eq!(s.retry_delay_ms, 200);
    assert_eq!(s.receipt_drain_ms, 0);
    let t = session_config(&config());
    assert_eq!(t.ack_timeout_ms, 40);
    assert_eq!(t.retry_count, 2);
    assert_eq!(t.retry_delay_ms, 1);
}

#[test]
fn configuration_is_kept() {
    let client = Ecr17Client::new(config());
    assert_eq!(client.configuration(), &config());
}

#[test]
fn pay_request_uses_config_ids_and_defaults() {
    let client = Ecr17Client::new(config());
    let r = client.pay_request(&payment(650, None)).unwrap();
    assert!(!r.safe_to_retry);
    assert!(!r.ack_only);
    assert_eq!(r.additional_payload, None);
    assert_eq!(&r.main_payload[0..10], "123456780P");
    assert_eq!(&r.main_payload[10..18], "00000001");
    assert_eq!(&r.main_payload[18..23], "00000");
    assert_eq!(&r.main_payload[23..31], "00000650");
}

#[test]
fn pay_request_with_override_and_tokenization() {
    let client = Ecr17Client::new(config());
    let mut req = payment(100, Some(PaymentCardType::Debit));
    req.cash_register_id = Some("77".into());
    req.card_already_present = Some(true);
    req.receipt_text = Some("HI".into());
    req.tokenization = Some(TokenizationRequest { service: TokenizationService::Recurring, contract_code: "ABC".into() });
    let r = client.pay_extended_request(&req).unwrap();
    assert_eq!(&r.main_payload[9..10], "X");
    assert_eq!(&r.main_payload[10..18], "00000077");
    assert_eq!(&r.main_payload[18..23], "10011");
    assert_eq!(&r.main_payload[157..159], "HI");
    assert_eq!(
        r.additional_payload.as_deref(),
        Some("123456780U00000062DF8D01  00000000000REC0TRKABC|0FNZ03\u{1b}")
    );
}

#[test]
fn tokenization_with_bad_contract_is_refused() {
    let client = Ecr17Client::new(config());
    let mut req = payment(100, None);
    req.tokenization = Some(TokenizationRequest { service: TokenizationService::UnscheduledOrOneClick, contract_code: String::new() });
    assert_eq!(client.pay_request(&req), Err(Ecr17Error::ContractCodeInvalid));
    // A main-message error is reported first.
    req.amount_cents = -1;
    assert_eq!(client.pay_request(&req), Err(Ecr17Error::NegativeAmount));
}

#[test]
fn reverse_request_defaults_to_last_payment() {
    let client = Ecr17Client::new(config());
    let r = client.reverse_request(&ReversalRequest::default()).unwrap();
    assert_eq!(r.main_payload, "123456780S0000000100000000");
    let r = client
        .reverse_request(&ReversalRequest { cash_register_id: None, stan: Some("42".into()) })
        .unwrap();
    assert_eq!(&r.main_payload[18..24], "000042");
    assert!(!r.safe_to_retry);
}

#[test]
fn pre_auth_family_requests() {
    let client = Ecr17Client::new(config());
    let p = client
        .pre_auth_request(&PreAuthRequest {
            amount_cents: 1000,
            cash_register_id: None,
            payment_type: None,
            card_already_present: None,
            receipt_text: None,
            tokenization: None,
        })
        .unwrap();
    assert_eq!(&p.main_payload[9..10], "p");
    let i = client
        .incremental_auth_request(&IncrementalAuthRequest {
            amount_cents: 5,
            original_pre_auth_code: "123".into(),
            cash_register_id: None,
            receipt_text: None,
        })
        .unwrap();
    assert_eq!(&i.main_payload[9..10], "i");
    assert_eq!(&i.main_payload[159..168], "000000123");
    let c = client
        .pre_auth_closure_request(&PreAuthClosureRequest {
            amount_cents: 5,
            original_pre_auth_code: "1234567890".into(),
            cash_register_id: None,
            receipt_text: None,
        });
    assert!(matches!(c, Err(Ecr17Error::FieldOverflow { width: 9, .. })));
}

#[test]
fn other_command_requests() {
    let client = Ecr17Client::new(config());
    let v = client.verify_card_request(&CardVerificationRequest::default()).unwrap();
    assert_eq!(&v.main_payload[9..10], "H");
    assert_eq!(client.close_session_request().unwrap().main_payload, "123456780C0000000100000000");
    let t = client.totals_request().unwrap();
    assert_eq!(&t.main_payload[9..10], "T");
    assert!(t.safe_to_retry);
    let g = client.send_last_result_request().unwrap();
    assert_eq!(g.main_payload, "123456780G000000010000");
    assert!(g.safe_to_retry);
    let e = client.enable_ecr_printing_request(true).unwrap();
    assert_eq!(e.main_payload, "123456780E1");
    assert!(e.ack_only && e.safe_to_retry);
    let r = client.reprint_request(false).unwrap();
    assert_eq!(r.main_payload, "123456780R000000000000");
    assert!(r.ack_only && !r.safe_to_retry);
    let k = client.vas_request("<x/>").unwrap();
    assert_eq!(&k.main_payload[22..], "0004<x/>");
    assert!(client.status_request().unwrap().safe_to_retry);
}

#[test]
fn oversized_terminal_id_refuses_every_command() {
    let mut cfg = config();
    cfg.terminal_id = "123456789".into();
    let client = Ecr17Client::new(cfg);
    assert!(matches!(client.status_request(), Err(Ecr17Error::FieldOverflow { width: 8, .. })));
    assert!(matches!(client.totals_request(), Err(Ecr17Error::FieldOverflow { width: 8, .. })));
    assert!(matches!(client.enable_ecr_printing_request(true), Err(Ecr17Error::FieldOverflow { .. })));
}

#[test]
fn field_conversions() {
    assert_eq!(opt_str(""), None);
    assert_eq!(opt_str("x"), Some("x".to_string()));
    assert_eq!(opt_i64(" 000650 "), Some(650));
    assert_eq!(opt_i64("-12"), Some(-12));
    assert_eq!(opt_i64("+7"), Some(7));
    assert_eq!(opt_i64("12a"), None);
    assert_eq!(opt_i64(""), None);
    assert_eq!(opt_i64("9223372036854775808"), None);
    assert_eq!(opt_i64("-9223372036854775808"), Some(i64::MIN));
    assert_eq!(opt_i32("2147483648"), None);
    assert_eq!(opt_i32("\t2\n"), Some(2));
    assert_eq!(map_card_type("1"), Some(CardType::Debit));
    assert_eq!(map_card_type("3"), Some(CardType::Other));
    assert_eq!(map_card_type("4"), None);
    assert_eq!(map_card_type(""), None);
    assert_eq!(map_entry_mode("MAG"), Some(TransactionEntryMode::Mag));
    assert_eq!(map_entry_mode("MAN"), Some(TransactionEntryMode::Manual));
    assert_eq!(map_entry_mode("CLM"), Some(TransactionEntryMode::ClessMag));
    assert_eq!(map_entry_mode("CLI"), Some(TransactionEntryMode::ClessIcc));
    assert_eq!(map_entry_mode("icc"), None);
}

#[test]
fn payload_text_is_lossy() {
    let pkt = DecodedPacket { packet_type: PacketType::Application, payload: vec![b'A', 0xFF, b'B'], valid_lrc: true };
    assert_eq!(as_str(&pkt), "A\u{FFFD}B");
}

#[test]
fn status_result_refuses_a_date_split_inside_a_character() {
    // "é" (2 bytes) straddles the day/month boundary of the raw date.
    let p = format!("123456780s{}0é1251530X2V1", "0".repeat(10));
    assert!(status_result(&p).is_none());
}

#[test]
fn short_status_has_an_empty_date() {
    let s = status_result("123").unwrap();
    assert_eq!(s.terminal_date_time, "");
    assert_eq!(s.status, -1);
}

#[test]
fn other_results() {
    let r = reversal_result("123456780S01CARTA RIFIUTATA");
    assert_eq!(r.outcome, TransactionOutcome::Ko);
    assert_eq!(r.action_code, None);
    let v = card_verification_result("");
    assert_eq!(v.outcome, TransactionOutcome::Unknown);
    assert_eq!(v.pan, None);
    let t = totals_result(&format!("123456780T00{}", "0".repeat(13) + "650"));
    assert_eq!(t.pos_total_cents, 650);
    assert_eq!(totals_result("123456780T00").pos_total_cents, 0);
    let c = close_session_result(&format!("123456780C00{}{}", "0".repeat(15) + "1", "0".repeat(15) + "2"));
    assert_eq!(c.pos_total_cents, Some(1));
    assert_eq!(c.host_total_cents, Some(2));
    let p = pre_auth_result(&format!(
        "123456780e00{}CLIAUTH0100050000000000123000",
        "0".repeat(19)
    ));
    assert_eq!(p.pre_authorized_amount_cents, Some(50000));
    assert_eq!(p.pre_auth_code.as_deref(), Some("000000123"));
    let x = "<p k=\"ORDER_ID\">Z9</p>";
    let k = vas_result(&format!("123456780K{}0001{}{}", "0".repeat(4), "0".repeat(8), x));
    assert_eq!(k.order_id.as_deref(), Some("Z9"));
    assert_eq!(k.raw_xml, x);
}
