use ecr17_protocol::response::{
    outcome_from_code, parse_close, parse_payment, parse_pre_auth, parse_status, parse_totals, parse_vas,
};
use ecr17_protocol::types::TransactionOutcome;


// Left-justified field, right-padded with spaces to `width` (alpha fields).
fn a(value: &str, width: usize) -> String {
    let mut s = value.to_string();
    s.push_str(&" ".repeat(width.saturating_sub(value.len())));
    s
}

// Right-justified numeric field, left-padded with '0' to `width`.
fn n(value: &str, width: usize) -> String {
    format!("{}{}", "0".repeat(width - value.len()), value)
}

#[test]
fn payment_positive() {
    let p = format!(
        "{}0E00{}{}{}2111520{}{}{}{}",
        a("12345678", 8),
        n("4111111111", 19),
        a("ICC", 3),
        a("ABC123", 6),
        "2",
        a("ACQ", 11),
        n("42", 6),
        n("99", 6)
    );
    let r = parse_payment(&p);
    assert_eq!(r.outcome, TransactionOutcome::Approved);
    assert_eq!(r.result_code, "00");
    assert_eq!(r.pan, n("4111111111", 19));
    assert_eq!(r.transaction_type, "ICC");
    assert_eq!(r.auth_code, "ABC123");
    assert_eq!(r.host_date_time, "2111520");
    assert_eq!(r.card_type, "2");
    assert_eq!(r.acquirer_id, "ACQ");
    assert_eq!(r.stan, "000042");
    assert_eq!(r.online_id, "000099");
    assert!(!r.currency.applied);
}

#[test]
fn payment_negative() {
    let p = format!(
        "{}0E01{}{}3{}{}{}",
        a("12345678", 8),
        a("CARTA RIFIUTATA", 24),
        n("", 11), // reserved 37-47
        a("AC2", 11),
        n("7", 6),
        n("3", 6)
    );
    let r = parse_payment(&p);
    assert_eq!(r.outcome, TransactionOutcome::Ko);
    assert_eq!(r.result_code, "01");
    assert_eq!(r.error_description, "CARTA RIFIUTATA");
    assert_eq!(r.card_type, "3");
    assert_eq!(r.stan, "000007");
}

#[test]
fn payment_with_currency_exchange() {
    let base = format!(
        "{}0V00{}{}{}2111520{}{}{}{}",
        a("12345678", 8),
        n("4111111111", 19),
        a("ICC", 3),
        a("ABC123", 6),
        "2",
        a("ACQ", 11),
        n("42", 6),
        n("99", 6)
    );
    // actionCode(3) origAmount(8) flag(1) rate(8) ccy(3) amount(12) precision(1)
    let p = format!(
        "{base}000{}1{}USD{}2",
        n("650", 8),
        n("12345", 8),
        n("650", 12)
    );
    let r = parse_payment(&p);
    assert_eq!(r.outcome, TransactionOutcome::Approved);
    assert!(r.currency.applied);
    assert_eq!(r.currency.rate, "00012345");
    assert_eq!(r.currency.currency_code, "USD");
    assert_eq!(r.currency.amount, "000000000650");
    assert_eq!(r.currency.precision, "2");
}

#[test]
fn status() {
    let p = format!("{}0s{}0102251530{}V1.2.3", a("12345678", 8), n("", 10), "2");
    let r = parse_status(&p);
    assert_eq!(r.terminal_id, "12345678");
    assert_eq!(r.date_time_raw, "0102251530");
    assert_eq!(r.status, 2);
    assert_eq!(r.software_release, "V1.2.3");
}

#[test]
fn totals() {
    let p = format!("{}0T00{}{}", a("12345678", 8), n("123456", 16), n("", 6));
    let r = parse_totals(&p);
    assert_eq!(r.outcome, TransactionOutcome::Approved);
    assert_eq!(r.pos_total, n("123456", 16));
}

#[test]
fn close_positive() {
    let p = format!("{}0C00{}{}", a("12345678", 8), n("1000", 16), n("1000", 16));
    let r = parse_close(&p);
    assert_eq!(r.outcome, TransactionOutcome::Approved);
    assert_eq!(r.pos_total, n("1000", 16));
    assert_eq!(r.host_total, n("1000", 16));
}

#[test]
fn close_negative() {
    let p = format!("{}0C01{}100", a("12345678", 8), a("SBILANCIO", 19));
    let r = parse_close(&p);
    assert_eq!(r.outcome, TransactionOutcome::Ko);
    assert_eq!(r.error_description, "SBILANCIO");
    assert_eq!(r.action_code, "100");
}

#[test]
fn pre_auth_positive() {
    let p = format!(
        "{}0e00{}{}{}{}{}000{}",
        a("12345678", 8),
        n("4111111111", 19),
        a("CLI", 3),
        a("AUTH01", 6),
        n("50000", 8),
        n("123", 9),
        "2111520"
    );
    let r = parse_pre_auth(&p);
    assert_eq!(r.outcome, TransactionOutcome::Approved);
    assert_eq!(r.transaction_type, "CLI");
    assert_eq!(r.auth_code, "AUTH01");
    assert_eq!(r.pre_authorized_amount, "00050000");
    assert_eq!(r.pre_auth_code, "000000123");
    assert_eq!(r.host_date_time, "2111520");
}

// Regression: on an approved pre-auth the amount field occupies positions 41-48, so
// its last digit sits exactly where card_type would be read. An amount ending in
// 1/2/3 must NOT be surfaced as debit/credit/other.
#[test]
fn pre_auth_positive_does_not_leak_amount_digit_as_card_type() {
    let p = format!(
        "{}0e00{}{}{}{}{}000{}",
        a("12345678", 8),
        n("4111111111", 19),
        a("CLI", 3),
        a("AUTH01", 6),
        n("50001", 8),
        n("123", 9),
        "2111520"
    );
    let r = parse_pre_auth(&p);
    assert_eq!(r.outcome, TransactionOutcome::Approved);
    assert_eq!(r.pre_authorized_amount, "00050001"); // ends in '1'
    assert_eq!(r.card_type, ""); // must stay empty, not "1"
}

#[test]
fn vas() {
    let xml = "<ecrres><p k=\"RESPID\">0</p><p k=\"RESPMSG\">OK-APPROVED</p>\
               <p k=\"ORDER_ID\">ABC123</p></ecrres>";
    // header(10) reserved(4) concatFlag(1) idMessage(3) filler-to-pos27(8) xml
    let p = format!("{}0K{}0001{}{}", a("12345678", 8), n("", 4), n("", 8), xml);
    let r = parse_vas(&p);
    assert!(!r.more_messages);
    assert_eq!(r.id_message, "001");
    assert_eq!(r.response_id, "0");
    assert_eq!(r.response_message, "OK-APPROVED");
    assert_eq!(r.order_id, "ABC123");
    assert_eq!(r.raw_xml, xml);
}

#[test]
fn defensive_on_short_or_empty_payload() {
    let r = parse_payment("");
    assert_eq!(r.outcome, TransactionOutcome::Unknown);
    assert_eq!(r.result_code, "");
    assert_eq!(r.pan, "");

    let s = parse_status("123"); // truncated, must not panic
    assert_eq!(s.status, -1);
}

#[test]
fn outcome_mapping() {
    assert_eq!(outcome_from_code("00"), TransactionOutcome::Approved);
    assert_eq!(outcome_from_code("01"), TransactionOutcome::Ko);
    assert_eq!(outcome_from_code("05"), TransactionOutcome::CardNotPresent);
    assert_eq!(outcome_from_code("09"), TransactionOutcome::UnknownTag);
    assert_eq!(outcome_from_code("zz"), TransactionOutcome::Unknown);
}

#[test]
fn other_result_codes_are_unknown() {
    assert_eq!(outcome_from_code("02"), TransactionOutcome::Unknown);
    assert_eq!(outcome_from_code("0"), TransactionOutcome::Unknown);
    assert_eq!(outcome_from_code(""), TransactionOutcome::Unknown);
}

#[test]
fn status_with_a_non_digit_status_is_unknown() {
    let p = format!("{}0s{}0102251530{}V1", a("12345678", 8), n("", 10), "X");
    assert_eq!(parse_status(&p).status, -1);
}

#[test]
fn status_trims_trailing_spaces_of_the_release() {
    let p = format!("{}0s{}0102251530{}V9   ", a("12345678", 8), n("", 10), "0");
    let r = parse_status(&p);
    assert_eq!(r.status, 0);
    assert_eq!(r.software_release, "V9");
}

#[test]
fn vas_without_a_key_gives_an_empty_value() {
    let xml = "<ecrres><p k=\"RESPID\">7</p></ecrres>";
    let p = format!("{}0K{}1002{}{}", a("12345678", 8), n("", 4), n("", 8), xml);
    let r = parse_vas(&p);
    assert!(r.more_messages);
    assert_eq!(r.id_message, "002");
    assert_eq!(r.response_id, "7");
    assert_eq!(r.response_message, "");
    assert_eq!(r.order_id, "");
}

#[test]
fn close_positive_keeps_descriptions_empty() {
    let p = format!("{}0C00{}{}", a("12345678", 8), n("5", 16), n("5", 16));
    let r = parse_close(&p);
    assert_eq!(r.error_description, "");
    assert_eq!(r.action_code, "");
}
