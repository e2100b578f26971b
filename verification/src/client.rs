//! The command layer of the ECR17 client, without I/O: it turns requests and the
//! configuration into the messages to exchange, maps terminal responses onto typed
//! results, and decides — money-safely — whether a failed command may be replayed.
//!
//! A financial command is never replayed after a reconnect: only read-only / idempotent
//! commands (status, totals, last result, ECR-printing toggle) are; a lost financial
//! response is recovered with the last-result command (`G`).
use vstd::prelude::*;
use crate::codec::DecodedPacket;
use crate::error::{Ecr17Error, ErrorView};
use crate::lrc::LrcMode;
use crate::protocol::{
    built, or_else, payment_like_error, payment_like_bytes, follow_up_error, follow_up_bytes,
    ids_error, session_command_bytes, card_verification_error, card_verification_bytes,
    send_last_result_bytes, enable_ecr_print_bytes, reprint_bytes, status_bytes, overflow, header,
    reversal_error, reversal_bytes, vas_error, vas_bytes, tokenization_tag_bytes, build_payment, build_extended_payment,
    build_pre_auth, build_incremental, build_pre_auth_closure, build_card_verification,
    build_close_session, build_totals, build_send_last_result, build_enable_ecr_print,
    build_reprint, build_status, build_reversal, build_vas, build_additional_tags,
    format_tokenization_tag,
};
use crate::response::{
    PaymentResponse, PaymentView, StatusResponse, StatusView, TotalsResponse, TotalsView,
    CloseResponse, CloseView, PreAuthResponse, PreAuthView, VasResponse, parse_payment,
    parse_status, parse_totals, parse_close, parse_pre_auth, parse_vas, payment_spec,
    status_spec, totals_spec, close_spec, pre_auth_spec, fld, xml_value_spec,
};
use crate::retry::{retry_allowed, should_retry_after_reconnect};
use crate::session::SessionConfig;
use crate::text::{
    bytes_of, parse_trimmed, parse_i64_bytes, parse_i32_bytes, trim_whitespace, utf8_lossy,
    string_from_utf8_lossy, string_of_bytes, empty_string, empty_str, zeros, lemma_ascii_valid_utf8,
};
use crate::types::{
    CardType, CardVerificationRequest, CardVerificationResult, CloseSessionResult,
    CurrencyExchange, Ecr17Config, IncrementalAuthRequest, PaymentRequest, PaymentResult,
    PosStatusResponse, PreAuthClosureRequest, PreAuthRequest, PreAuthResult, ReversalRequest,
    ReversalResult, TokenizationRequest, TotalsResult, TransactionEntryMode, VasResult,
    PaymentCardType,
};
use vstd::utf8::{is_char_boundary, valid_utf8, valid_utf8_split};

verus! {

broadcast use vstd::utf8::encode_utf8_valid_utf8, vstd::utf8::encode_utf8_decode_utf8;

// ---------------------------------------------------------------------------
// Field conversions
// ---------------------------------------------------------------------------

/// `None` for an empty field, the field otherwise.
pub open spec fn nonempty(b: Seq<u8>) -> Option<Seq<u8>> {
    if b.len() == 0 { None } else { Some(b) }
}

/// The bytes of an optional string.
pub open spec fn opt_bytes(o: Option<String>) -> Option<Seq<u8>> {
    match o {
        Some(s) => Some(bytes_of(s@)),
        None => None,
    }
}

/// What `s.trim().parse::<i64>().ok()` gives for the field bytes `b`.
pub open spec fn opt_i64_spec(b: Seq<u8>) -> Option<i64> {
    match parse_trimmed(b, i64::MIN as int, i64::MAX as int) {
        Some(v) => Some(v as i64),
        None => None,
    }
}

/// What `s.trim().parse::<i32>().ok()` gives for the field bytes `b`.
pub open spec fn opt_i32_spec(b: Seq<u8>) -> Option<i32> {
    match parse_trimmed(b, i32::MIN as int, i32::MAX as int) {
        Some(v) => Some(v as i32),
        None => None,
    }
}

/// The card type of a raw `"1"`/`"2"`/`"3"` field.
pub open spec fn card_type_of(b: Seq<u8>) -> Option<CardType> {
    if b == seq![0x31u8] {
        Some(CardType::Debit)
    } else if b == seq![0x32u8] {
        Some(CardType::Credit)
    } else if b == seq![0x33u8] {
        Some(CardType::Other)
    } else {
        None
    }
}

/// The entry mode of a raw `ICC`/`MAG`/`MAN`/`CLM`/`CLI` field.
pub open spec fn entry_mode_of(b: Seq<u8>) -> Option<TransactionEntryMode> {
    if b == seq![0x49u8, 0x43u8, 0x43u8] {
        Some(TransactionEntryMode::Icc)
    } else if b == seq![0x4Du8, 0x41u8, 0x47u8] {
        Some(TransactionEntryMode::Mag)
    } else if b == seq![0x4Du8, 0x41u8, 0x4Eu8] {
        Some(TransactionEntryMode::Manual)
    } else if b == seq![0x43u8, 0x4Cu8, 0x4Du8] {
        Some(TransactionEntryMode::ClessMag)
    } else if b == seq![0x43u8, 0x4Cu8, 0x49u8] {
        Some(TransactionEntryMode::ClessIcc)
    } else {
        None
    }
}

/// `None` for an empty string, a copy otherwise.
pub fn opt_str(s: &str) -> (r: Option<String>)
    ensures
        opt_bytes(r) == nonempty(bytes_of(s@)),
{
    if s.as_bytes().len() == 0 {
        None
    } else {
        Some(String::from_str(s))
    }
}

/// The trimmed text of `s` parsed as an `i64`, if it is one.
pub fn opt_i64(s: &str) -> (r: Option<i64>)
    ensures
        r == opt_i64_spec(bytes_of(s@)),
{
    parse_i64_bytes(trim_whitespace(s).as_bytes())
}

/// The trimmed text of `s` parsed as an `i32`, if it is one.
pub fn opt_i32(s: &str) -> (r: Option<i32>)
    ensures
        r == opt_i32_spec(bytes_of(s@)),
{
    parse_i32_bytes(trim_whitespace(s).as_bytes())
}

/// Maps a raw card-type field.
pub fn map_card_type(raw: &str) -> (r: Option<CardType>)
    ensures
        r == card_type_of(bytes_of(raw@)),
{
    let b = raw.as_bytes();
    if b.len() != 1 {
        proof {
            assert(b@ != seq![0x31u8] && b@ != seq![0x32u8] && b@ != seq![0x33u8]);
        }
        return None;
    }
    let c = b[0];
    proof {
        assert(b@ =~= seq![c]);
    }
    if c == 0x31 {
        Some(CardType::Debit)
    } else if c == 0x32 {
        Some(CardType::Credit)
    } else if c == 0x33 {
        Some(CardType::Other)
    } else {
        proof {
            assert(seq![c][0] == c);
        }
        None
    }
}

/// Maps a raw entry-mode field.
pub fn map_entry_mode(raw: &str) -> (r: Option<TransactionEntryMode>)
    ensures
        r == entry_mode_of(bytes_of(raw@)),
{
    let b = raw.as_bytes();
    if b.len() != 3 {
        proof {
            assert(b@ != seq![0x49u8, 0x43u8, 0x43u8]);
            assert(b@ != seq![0x4Du8, 0x41u8, 0x47u8]);
            assert(b@ != seq![0x4Du8, 0x41u8, 0x4Eu8]);
            assert(b@ != seq![0x43u8, 0x4Cu8, 0x4Du8]);
            assert(b@ != seq![0x43u8, 0x4Cu8, 0x49u8]);
        }
        return None;
    }
    let (x, y, z) = (b[0], b[1], b[2]);
    proof {
        assert(b@ =~= seq![x, y, z]);
    }
    if x == 0x49 && y == 0x43 && z == 0x43 {
        Some(TransactionEntryMode::Icc)
    } else if x == 0x4D && y == 0x41 && z == 0x47 {
        Some(TransactionEntryMode::Mag)
    } else if x == 0x4D && y == 0x41 && z == 0x4E {
        Some(TransactionEntryMode::Manual)
    } else if x == 0x43 && y == 0x4C && z == 0x4D {
        Some(TransactionEntryMode::ClessMag)
    } else if x == 0x43 && y == 0x4C && z == 0x49 {
        Some(TransactionEntryMode::ClessIcc)
    } else {
        proof {
            let s = seq![x, y, z];
            assert(s[0] == x && s[1] == y && s[2] == z);
        }
        None
    }
}

// ---------------------------------------------------------------------------
// Response mapping
// ---------------------------------------------------------------------------

/// The DCC block of a result agrees with the parsed DCC fields.
pub open spec fn currency_matches(c: Option<CurrencyExchange>, d: crate::response::DccView) -> bool {
    if d.applied {
        c matches Some(x) && x.applied && bytes_of(x.rate_raw@) == d.rate
            && opt_bytes(x.currency_code) == nonempty(d.currency_code)
            && x.amount_cents == opt_i64_spec(d.amount) && x.precision == opt_i32_spec(d.precision)
    } else {
        c is None
    }
}

/// A payment result agrees with the parsed response fields.
pub open spec fn payment_result_matches(r: PaymentResult, p: PaymentView) -> bool {
    &&& r.outcome == p.outcome
    &&& bytes_of(r.result_code@) == p.result_code
    &&& opt_bytes(r.pan) == nonempty(p.pan)
    &&& r.entry_mode == entry_mode_of(p.transaction_type)
    &&& opt_bytes(r.auth_code) == nonempty(p.auth_code)
    &&& opt_bytes(r.host_date_time) == nonempty(p.host_date_time)
    &&& r.card_type == card_type_of(p.card_type)
    &&& opt_bytes(r.acquirer_id) == nonempty(p.acquirer_id)
    &&& opt_bytes(r.stan) == nonempty(p.stan)
    &&& opt_bytes(r.online_id) == nonempty(p.online_id)
    &&& opt_bytes(r.error_description) == nonempty(p.error_description)
    &&& currency_matches(r.currency_exchange, p.currency)
}

/// A reversal result agrees with the parsed response fields (no action code is read).
pub open spec fn reversal_result_matches(r: ReversalResult, p: PaymentView) -> bool {
    &&& r.outcome == p.outcome
    &&& bytes_of(r.result_code@) == p.result_code
    &&& opt_bytes(r.pan) == nonempty(p.pan)
    &&& r.entry_mode == entry_mode_of(p.transaction_type)
    &&& opt_bytes(r.host_date_time) == nonempty(p.host_date_time)
    &&& r.card_type == card_type_of(p.card_type)
    &&& opt_bytes(r.acquirer_id) == nonempty(p.acquirer_id)
    &&& opt_bytes(r.stan) == nonempty(p.stan)
    &&& opt_bytes(r.online_id) == nonempty(p.online_id)
    &&& r.action_code is None
    &&& opt_bytes(r.error_description) == nonempty(p.error_description)
}

/// A card-verification result agrees with the parsed response fields.
pub open spec fn card_verification_result_matches(r: CardVerificationResult, p: PaymentView) -> bool {
    &&& r.outcome == p.outcome
    &&& bytes_of(r.result_code@) == p.result_code
    &&& opt_bytes(r.pan) == nonempty(p.pan)
    &&& r.entry_mode == entry_mode_of(p.transaction_type)
    &&& opt_bytes(r.auth_code) == nonempty(p.auth_code)
    &&& opt_bytes(r.host_date_time) == nonempty(p.host_date_time)
    &&& r.card_type == card_type_of(p.card_type)
    &&& opt_bytes(r.acquirer_id) == nonempty(p.acquirer_id)
    &&& opt_bytes(r.stan) == nonempty(p.stan)
    &&& opt_bytes(r.online_id) == nonempty(p.online_id)
    &&& r.action_code is None
    &&& opt_bytes(r.error_description) == nonempty(p.error_description)
}

/// A pre-auth result agrees with the parsed response fields.
pub open spec fn pre_auth_result_matches(r: PreAuthResult, p: PreAuthView) -> bool {
    &&& r.outcome == p.outcome
    &&& bytes_of(r.result_code@) == p.result_code
    &&& opt_bytes(r.pan) == nonempty(p.pan)
    &&& r.entry_mode == entry_mode_of(p.transaction_type)
    &&& opt_bytes(r.auth_code) == nonempty(p.auth_code)
    &&& r.pre_authorized_amount_cents == opt_i64_spec(p.pre_authorized_amount)
    &&& opt_bytes(r.pre_auth_code) == nonempty(p.pre_auth_code)
    &&& opt_bytes(r.action_code) == nonempty(p.action_code)
    &&& opt_bytes(r.host_date_time) == nonempty(p.host_date_time)
    &&& r.card_type == card_type_of(p.card_type)
    &&& opt_bytes(r.acquirer_id) == nonempty(p.acquirer_id)
    &&& opt_bytes(r.stan) == nonempty(p.stan)
    &&& opt_bytes(r.online_id) == nonempty(p.online_id)
    &&& opt_bytes(r.error_description) == nonempty(p.error_description)
}

/// A totals result agrees with the parsed response fields (an unreadable total is 0).
pub open spec fn totals_result_matches(r: TotalsResult, t: TotalsView) -> bool {
    &&& r.outcome == t.outcome
    &&& bytes_of(r.result_code@) == t.result_code
    &&& r.pos_total_cents == match opt_i64_spec(t.pos_total) {
        Some(v) => v,
        None => 0i64,
    }
}

/// A close-session result agrees with the parsed response fields.
pub open spec fn close_result_matches(r: CloseSessionResult, c: CloseView) -> bool {
    &&& r.outcome == c.outcome
    &&& bytes_of(r.result_code@) == c.result_code
    &&& r.pos_total_cents == opt_i64_spec(c.pos_total)
    &&& r.host_total_cents == opt_i64_spec(c.host_total)
    &&& opt_bytes(r.action_code) == nonempty(c.action_code)
    &&& opt_bytes(r.error_description) == nonempty(c.error_description)
}

/// The raw `DDMMYYhhmm` date splits into its parts on character boundaries (else slicing
/// it would panic).
pub open spec fn iso_splittable(raw: Seq<u8>) -> bool {
    raw.len() >= 10 ==> {
        &&& is_char_boundary(raw, 2)
        &&& is_char_boundary(raw, 4)
        &&& is_char_boundary(raw, 6)
        &&& is_char_boundary(raw, 8)
        &&& is_char_boundary(raw, 10)
    }
}

/// ISO 8601 form `20YY-MM-DDThh:mm:00` of a raw `DDMMYYhhmm` date; empty when shorter
/// than 10 bytes.
pub open spec fn iso_bytes(raw: Seq<u8>) -> Seq<u8> {
    if raw.len() < 10 {
        Seq::<u8>::empty()
    } else {
        seq![0x32u8, 0x30u8] + raw.subrange(4, 6) + seq![0x2Du8] + raw.subrange(2, 4) + seq![0x2Du8]
            + raw.subrange(0, 2) + seq![0x54u8] + raw.subrange(6, 8) + seq![0x3Au8] + raw.subrange(8, 10)
            + seq![0x3Au8, 0x30u8, 0x30u8]
    }
}

/// A status result agrees with the parsed response fields.
pub open spec fn status_result_matches(r: PosStatusResponse, s: StatusView) -> bool {
    &&& bytes_of(r.terminal_id@) == s.terminal_id
    &&& bytes_of(r.terminal_date_time@) == iso_bytes(s.date_time_raw)
    &&& r.status == s.status
    &&& bytes_of(r.software_release@) == s.software_release
}

proof fn lemma_valid_slice(b: Seq<u8>, i: int, j: int)
    requires
        valid_utf8(b),
        0 <= i <= j <= b.len(),
        is_char_boundary(b, i),
        is_char_boundary(b, j),
    ensures
        valid_utf8(b.subrange(i, j)),
{
    crate::text::lemma_boundary_in_prefix(b, j, i);
    let pre = b.subrange(0, j);
    valid_utf8_split(pre, i);
    assert(pre.subrange(i, pre.len() as int) =~= b.subrange(i, j));
}

/// Converts the terminal's raw `DDMMYYhhmm` to `20YY-MM-DDThh:mm:00`; empty when the input
/// is shorter than 10 bytes.
pub fn raw_datetime_to_iso(raw: &str) -> (r: String)
    requires
        iso_splittable(bytes_of(raw@)),
    ensures
        bytes_of(r@) == iso_bytes(bytes_of(raw@)),
{
    let b = raw.as_bytes();
    if b.len() < 10 {
        return empty_string();
    }
    proof {
        vstd::utf8::is_char_boundary_start_end_of_seq(b@);
        lemma_valid_slice(b@, 4, 6);
        lemma_valid_slice(b@, 2, 4);
        lemma_valid_slice(b@, 0, 2);
        lemma_valid_slice(b@, 6, 8);
        lemma_valid_slice(b@, 8, 10);
        lemma_ascii_valid_utf8(Seq::<u8>::empty());
    }
    let mut m: Vec<u8> = Vec::new();
    crate::text::push_ascii(&mut m, 0x32);
    crate::text::push_ascii(&mut m, 0x30);
    crate::text::push_slice(&mut m, vstd::slice::slice_subrange(b, 4, 6));
    crate::text::push_ascii(&mut m, 0x2D);
    crate::text::push_slice(&mut m, vstd::slice::slice_subrange(b, 2, 4));
    crate::text::push_ascii(&mut m, 0x2D);
    crate::text::push_slice(&mut m, vstd::slice::slice_subrange(b, 0, 2));
    crate::text::push_ascii(&mut m, 0x54);
    crate::text::push_slice(&mut m, vstd::slice::slice_subrange(b, 6, 8));
    crate::text::push_ascii(&mut m, 0x3A);
    crate::text::push_slice(&mut m, vstd::slice::slice_subrange(b, 8, 10));
    crate::text::push_ascii(&mut m, 0x3A);
    crate::text::push_ascii(&mut m, 0x30);
    crate::text::push_ascii(&mut m, 0x30);
    proof {
        assert(m@ =~= iso_bytes(b@));
    }
    string_of_bytes(m)
}

/// Maps a parsed payment-family response onto a [`PaymentResult`].
pub fn map_payment(p: &PaymentResponse) -> (r: PaymentResult)
    ensures
        payment_result_matches(r, p@),
{
    let currency_exchange = if p.currency.applied {
        Some(CurrencyExchange {
            applied: true,
            rate_raw: p.currency.rate.clone(),
            currency_code: opt_str(p.currency.currency_code.as_str()),
            amount_cents: opt_i64(p.currency.amount.as_str()),
            precision: opt_i32(p.currency.precision.as_str()),
        })
    } else {
        None
    };
    PaymentResult {
        outcome: p.outcome,
        result_code: p.result_code.clone(),
        pan: opt_str(p.pan.as_str()),
        entry_mode: map_entry_mode(p.transaction_type.as_str()),
        auth_code: opt_str(p.auth_code.as_str()),
        host_date_time: opt_str(p.host_date_time.as_str()),
        card_type: map_card_type(p.card_type.as_str()),
        acquirer_id: opt_str(p.acquirer_id.as_str()),
        stan: opt_str(p.stan.as_str()),
        online_id: opt_str(p.online_id.as_str()),
        error_description: opt_str(p.error_description.as_str()),
        currency_exchange,
    }
}

/// Maps a parsed payment-family response onto a [`ReversalResult`].
pub fn map_reversal(p: &PaymentResponse) -> (r: ReversalResult)
    ensures
        reversal_result_matches(r, p@),
{
    ReversalResult {
        outcome: p.outcome,
        result_code: p.result_code.clone(),
        pan: opt_str(p.pan.as_str()),
        entry_mode: map_entry_mode(p.transaction_type.as_str()),
        host_date_time: opt_str(p.host_date_time.as_str()),
        card_type: map_card_type(p.card_type.as_str()),
        acquirer_id: opt_str(p.acquirer_id.as_str()),
        stan: opt_str(p.stan.as_str()),
        online_id: opt_str(p.online_id.as_str()),
        action_code: None,
        error_description: opt_str(p.error_description.as_str()),
    }
}

/// Maps a parsed payment-family response onto a [`CardVerificationResult`].
pub fn map_card_verify(p: &PaymentResponse) -> (r: CardVerificationResult)
    ensures
        card_verification_result_matches(r, p@),
{
    CardVerificationResult {
        outcome: p.outcome,
        result_code: p.result_code.clone(),
        pan: opt_str(p.pan.as_str()),
        entry_mode: map_entry_mode(p.transaction_type.as_str()),
        auth_code: opt_str(p.auth_code.as_str()),
        host_date_time: opt_str(p.host_date_time.as_str()),
        card_type: map_card_type(p.card_type.as_str()),
        acquirer_id: opt_str(p.acquirer_id.as_str()),
        stan: opt_str(p.stan.as_str()),
        online_id: opt_str(p.online_id.as_str()),
        action_code: None,
        error_description: opt_str(p.error_description.as_str()),
    }
}

/// Maps a parsed pre-auth response onto a [`PreAuthResult`].
pub fn map_pre_auth(p: &PreAuthResponse) -> (r: PreAuthResult)
    ensures
        pre_auth_result_matches(r, p@),
{
    PreAuthResult {
        outcome: p.outcome,
        result_code: p.result_code.clone(),
        pan: opt_str(p.pan.as_str()),
        entry_mode: map_entry_mode(p.transaction_type.as_str()),
        auth_code: opt_str(p.auth_code.as_str()),
        pre_authorized_amount_cents: opt_i64(p.pre_authorized_amount.as_str()),
        pre_auth_code: opt_str(p.pre_auth_code.as_str()),
        action_code: opt_str(p.action_code.as_str()),
        host_date_time: opt_str(p.host_date_time.as_str()),
        card_type: map_card_type(p.card_type.as_str()),
        acquirer_id: opt_str(p.acquirer_id.as_str()),
        stan: opt_str(p.stan.as_str()),
        online_id: opt_str(p.online_id.as_str()),
        error_description: opt_str(p.error_description.as_str()),
    }
}

/// Maps a parsed status response onto a [`PosStatusResponse`] (date as ISO 8601).
pub fn map_status(s: &StatusResponse) -> (r: PosStatusResponse)
    requires
        iso_splittable(s@.date_time_raw),
    ensures
        status_result_matches(r, s@),
{
    PosStatusResponse {
        terminal_id: s.terminal_id.clone(),
        terminal_date_time: raw_datetime_to_iso(s.date_time_raw.as_str()),
        status: s.status,
        software_release: s.software_release.clone(),
    }
}

/// Maps a parsed totals response onto a [`TotalsResult`].
pub fn map_totals(t: &TotalsResponse) -> (r: TotalsResult)
    ensures
        totals_result_matches(r, t@),
{
    TotalsResult {
        outcome: t.outcome,
        result_code: t.result_code.clone(),
        pos_total_cents: opt_i64(t.pos_total.as_str()).unwrap_or(0),
    }
}

/// Maps a parsed close-session response onto a [`CloseSessionResult`].
pub fn map_close(c: &CloseResponse) -> (r: CloseSessionResult)
    ensures
        close_result_matches(r, c@),
{
    CloseSessionResult {
        outcome: c.outcome,
        result_code: c.result_code.clone(),
        pos_total_cents: opt_i64(c.pos_total.as_str()),
        host_total_cents: opt_i64(c.host_total.as_str()),
        action_code: opt_str(c.action_code.as_str()),
        error_description: opt_str(c.error_description.as_str()),
    }
}

/// Maps a parsed VAS response onto a [`VasResult`].
pub fn map_vas(v: &VasResponse) -> (r: VasResult)
    ensures
        r.response_id@ == v.response_id@,
        r.response_message@ == v.response_message@,
        opt_bytes(r.order_id) == nonempty(bytes_of(v.order_id@)),
        r.raw_xml@ == v.raw_xml@,
{
    VasResult {
        response_id: v.response_id.clone(),
        response_message: v.response_message.clone(),
        order_id: opt_str(v.order_id.as_str()),
        raw_xml: v.raw_xml.clone(),
    }
}

// ---------------------------------------------------------------------------
// Response text -> typed result
// ---------------------------------------------------------------------------

/// The payload of a decoded packet as text (invalid UTF-8 becomes U+FFFD).
pub fn as_str(pkt: &DecodedPacket) -> (r: String)
    ensures
        r@ == utf8_lossy(pkt.payload@),
{
    string_from_utf8_lossy(pkt.payload.as_slice())
}

/// The payment result carried by the response text of a `P`, `X`, `c` or `G` command.
pub fn payment_result(text: &str) -> (r: PaymentResult)
    ensures
        payment_result_matches(r, payment_spec(bytes_of(text@))),
{
    map_payment(&parse_payment(text))
}

/// The reversal result carried by the response text of an `S` command.
pub fn reversal_result(text: &str) -> (r: ReversalResult)
    ensures
        reversal_result_matches(r, payment_spec(bytes_of(text@))),
{
    map_reversal(&parse_payment(text))
}

/// The card-verification result carried by the response text of an `H` command.
pub fn card_verification_result(text: &str) -> (r: CardVerificationResult)
    ensures
        card_verification_result_matches(r, payment_spec(bytes_of(text@))),
{
    map_card_verify(&parse_payment(text))
}

/// The pre-auth result carried by the response text of a `p` or `i` command.
pub fn pre_auth_result(text: &str) -> (r: PreAuthResult)
    ensures
        pre_auth_result_matches(r, pre_auth_spec(bytes_of(text@))),
{
    map_pre_auth(&parse_pre_auth(text))
}

/// The totals result carried by the response text of a `T` command.
pub fn totals_result(text: &str) -> (r: TotalsResult)
    ensures
        totals_result_matches(r, totals_spec(bytes_of(text@))),
{
    map_totals(&parse_totals(text))
}

/// The close-session result carried by the response text of a `C` command.
pub fn close_session_result(text: &str) -> (r: CloseSessionResult)
    ensures
        close_result_matches(r, close_spec(bytes_of(text@))),
{
    map_close(&parse_close(text))
}

/// The VAS result carried by the response text of a `K` command.
pub fn vas_result(text: &str) -> (r: VasResult)
    ensures
        bytes_of(r.raw_xml@) == fld(bytes_of(text@), 27, bytes_of(text@).len() as int),
        r.response_id@ == xml_value_spec(bytes_of(r.raw_xml@), bytes_of("RESPID"@)),
        r.response_message@ == xml_value_spec(bytes_of(r.raw_xml@), bytes_of("RESPMSG"@)),
        opt_bytes(r.order_id) == nonempty(bytes_of(xml_value_spec(bytes_of(r.raw_xml@), bytes_of("ORDER_ID"@)))),
{
    let v = parse_vas(text);
    map_vas(&v)
}

/// The status result carried by the response text of an `s` command; `None` when the
/// raw date cannot be split into its two-byte parts on character boundaries.
pub fn status_result(text: &str) -> (r: Option<PosStatusResponse>)
    ensures
        r is Some <==> iso_splittable(status_spec(bytes_of(text@)).date_time_raw),
        r matches Some(x) ==> status_result_matches(x, status_spec(bytes_of(text@))),
{
    let s = parse_status(text);
    let raw = s.date_time_raw.as_str();
    if raw.as_bytes().len() >= 10 && !(raw.is_char_boundary(2) && raw.is_char_boundary(4)
        && raw.is_char_boundary(6) && raw.is_char_boundary(8) && raw.is_char_boundary(10)) {
        return None;
    }
    Some(map_status(&s))
}

// ---------------------------------------------------------------------------
// Requests
// ---------------------------------------------------------------------------

/// One command to run on the terminal: the main message, the additional-data message (`U`)
/// sent once the main one is acknowledged, whether only the physical `ACK` is awaited, and
/// whether the command may be replayed after a reconnect.
#[derive(Debug, Clone, PartialEq, Eq)]
pub struct ExchangeRequest {
    /// The application message of the command.
    pub main_payload: String,
    /// The additional-data message, when the command carries one.
    pub additional_payload: Option<String>,
    /// The terminal answers with the physical `ACK` only.
    pub ack_only: bool,
    /// The command is read-only / idempotent, so it may be replayed after a reconnect.
    pub safe_to_retry: bool,
}

/// A request result agrees with its specification: `Ok` exactly when no check fails, with
/// the given messages and flags; otherwise the first failing check's error.
pub open spec fn requested(
    r: Result<ExchangeRequest, Ecr17Error>,
    err: Option<ErrorView>,
    main: Seq<u8>,
    additional: Option<Seq<u8>>,
    ack_only: bool,
    safe_to_retry: bool,
) -> bool {
    match r {
        Ok(x) => {
            &&& err is None
            &&& bytes_of(x.main_payload@) == main
            &&& opt_bytes(x.additional_payload) == additional
            &&& x.ack_only == ack_only
            &&& x.safe_to_retry == safe_to_retry
        },
        Err(e) => err == Some(e@),
    }
}

/// The cash-register id of a request: its override, else the configured one.
pub open spec fn crid_or(cfg: Ecr17Config, o: Option<String>) -> Seq<char> {
    match o {
        Some(s) => s@,
        None => cfg.cash_register_id@,
    }
}

/// An optional text, empty when absent.
pub open spec fn text_or_empty(o: Option<String>) -> Seq<char> {
    match o {
        Some(s) => s@,
        None => Seq::<char>::empty(),
    }
}

/// The payment-type digit of a request (`'0'`, automatic, when absent).
pub open spec fn type_digit(o: Option<PaymentCardType>) -> char {
    match o {
        Some(t) => t.digit(),
        None => '0',
    }
}

/// An optional flag, off when absent.
pub open spec fn flag_or_off(o: Option<bool>) -> bool {
    match o {
        Some(b) => b,
        None => false,
    }
}

/// Why the tokenization additional data of a request cannot be built, if it cannot.
pub open spec fn tokenization_error(tid: Seq<char>, tok: Option<TokenizationRequest>) -> Option<ErrorView> {
    match tok {
        None => None,
        Some(t) => if bytes_of(t.contract_code@).len() == 0 || bytes_of(t.contract_code@).len() > 18 {
            Some(ErrorView::ContractCodeInvalid)
        } else {
            overflow(tid, 8)
        },
    }
}

/// The tokenization additional-data message of a request: a `U` message for ISO field 62,
/// TAG `DF8D01`, whose content is the tokenization TAG.
pub open spec fn tokenization_message(tid: Seq<char>, tok: Option<TokenizationRequest>) -> Option<Seq<u8>> {
    match tok {
        None => None,
        Some(t) => Some(
            header(tid, 0x55u8) + zeros(6) + seq![0x36u8, 0x32u8]
                + seq![0x44u8, 0x46u8, 0x38u8, 0x44u8, 0x30u8, 0x31u8, 0x20u8, 0x20u8] + zeros(10)
                + tokenization_tag_bytes(t.service is Recurring, t.contract_code@) + seq![0x1Bu8],
        ),
    }
}

/// The session settings of a client configuration: unset values take the defaults (standard
/// LRC, 2 s ACK wait, 60 s response wait, 3 retransmissions 200 ms apart, no draining).
pub open spec fn session_config_spec(c: Ecr17Config) -> SessionConfig {
    SessionConfig {
        lrc_mode: match c.lrc_mode { Some(m) => m, None => LrcMode::Std },
        ack_timeout_ms: match c.ack_timeout_ms { Some(v) => v as u64, None => 2000 },
        response_timeout_ms: match c.response_timeout_ms { Some(v) => v as u64, None => 60_000 },
        retry_count: match c.retry_count { Some(v) => v, None => 3 },
        retry_delay_ms: match c.retry_delay_ms { Some(v) => v as u64, None => 200 },
        receipt_drain_ms: match c.receipt_drain_ms { Some(v) => v as u64, None => 0 },
    }
}

/// The session settings of a client configuration.
pub fn session_config(config: &Ecr17Config) -> (c: SessionConfig)
    ensures
        c == session_config_spec(*config),
{
    SessionConfig {
        lrc_mode: match config.lrc_mode { Some(m) => m, None => LrcMode::Std },
        ack_timeout_ms: match config.ack_timeout_ms { Some(v) => v as u64, None => 2000 },
        response_timeout_ms: match config.response_timeout_ms { Some(v) => v as u64, None => 60_000 },
        retry_count: match config.retry_count { Some(v) => v, None => 3 },
        retry_delay_ms: match config.retry_delay_ms { Some(v) => v as u64, None => 200 },
        receipt_drain_ms: match config.receipt_drain_ms { Some(v) => v as u64, None => 0 },
    }
}

/// The optional text, empty when absent.
fn text_or_empty_str(o: &Option<String>) -> (r: &str)
    ensures
        r@ == text_or_empty(*o),
{
    match o {
        Some(s) => s.as_str(),
        None => empty_str(),
    }
}

/// The payment-type digit of a request.
fn digit_of(o: Option<PaymentCardType>) -> (c: char)
    ensures
        c == type_digit(o),
{
    match o {
        Some(t) => t.as_digit(),
        None => '0',
    }
}

/// The optional flag, off when absent.
fn flag_of(o: Option<bool>) -> (b: bool)
    ensures
        b == flag_or_off(o),
{
    match o {
        Some(b) => b,
        None => false,
    }
}

/// A one-byte character is encoded as its own value.
proof fn lemma_ascii_scalar(c: char)
    requires
        (c as u32) <= 0x7F,
    ensures
        vstd::utf8::encode_scalar(c as u32) == seq![(c as u32) as u8],
{
    let v = c as u32;
    assert(v <= 0x7F ==> (v & 0x7F) == v) by (bit_vector);
}

/// The bytes of `s` followed by one more character.
proof fn lemma_bytes_of_cons(c: char, s: Seq<char>)
    ensures
        bytes_of(seq![c] + s) == vstd::utf8::encode_scalar(c as u32) + bytes_of(s),
{
    assert((seq![c] + s).drop_first() =~= s);
}

/// The bytes of the ISO field and TAG number literals of the tokenization message.
proof fn lemma_tag_literals()
    ensures
        bytes_of("62"@) == seq![0x36u8, 0x32u8],
        bytes_of("DF8D01"@) == seq![0x44u8, 0x46u8, 0x38u8, 0x44u8, 0x30u8, 0x31u8],
{
    reveal_strlit("62");
    reveal_strlit("DF8D01");
    lemma_ascii_scalar('6');
    lemma_ascii_scalar('2');
    lemma_ascii_scalar('D');
    lemma_ascii_scalar('F');
    lemma_ascii_scalar('8');
    lemma_ascii_scalar('0');
    lemma_ascii_scalar('1');
    let e = Seq::<char>::empty();
    lemma_bytes_of_cons('2', e);
    assert(seq!['2'] + e =~= seq!['2']);
    lemma_bytes_of_cons('6', seq!['2']);
    assert(seq!['6'] + seq!['2'] =~= "62"@);
    lemma_bytes_of_cons('1', e);
    assert(seq!['1'] + e =~= seq!['1']);
    lemma_bytes_of_cons('0', seq!['1']);
    assert(seq!['0'] + seq!['1'] =~= seq!['0', '1']);
    lemma_bytes_of_cons('D', seq!['0', '1']);
    assert(seq!['D'] + seq!['0', '1'] =~= seq!['D', '0', '1']);
    lemma_bytes_of_cons('8', seq!['D', '0', '1']);
    assert(seq!['8'] + seq!['D', '0', '1'] =~= seq!['8', 'D', '0', '1']);
    lemma_bytes_of_cons('F', seq!['8', 'D', '0', '1']);
    assert(seq!['F'] + seq!['8', 'D', '0', '1'] =~= seq!['F', '8', 'D', '0', '1']);
    lemma_bytes_of_cons('D', seq!['F', '8', 'D', '0', '1']);
    assert(seq!['D'] + seq!['F', '8', 'D', '0', '1'] =~= "DF8D01"@);
    assert(bytes_of("62"@) =~= seq![0x36u8, 0x32u8]);
    assert(bytes_of("DF8D01"@) =~= seq![0x44u8, 0x46u8, 0x38u8, 0x44u8, 0x30u8, 0x31u8]);
}

/// The tokenization additional-data message of a request, if it has one.
fn tokenization_payload(terminal_id: &str, tok: &Option<TokenizationRequest>) -> (r: Result<Option<String>, Ecr17Error>)
    ensures
        match r {
            Ok(a) => tokenization_error(terminal_id@, *tok) is None
                && opt_bytes(a) == tokenization_message(terminal_id@, *tok),
            Err(e) => tokenization_error(terminal_id@, *tok) == Some(e@),
        },
{
    match tok {
        None => Ok(None),
        Some(t) => {
            let tag = format_tokenization_tag(t.service.is_recurring(), t.contract_code.as_str())?;
            proof {
                lemma_tag_literals();
                assert(crate::text::repeat(0x30u8, 0) =~= Seq::<u8>::empty());
                assert(crate::text::repeat(0x20u8, 2) =~= seq![0x20u8, 0x20u8]);
            }
            let additional = build_additional_tags(terminal_id, tag.as_str(), "62", "DF8D01")?;
            proof {
                assert(bytes_of(additional@) =~= tokenization_message(terminal_id@, *tok)->0);
            }
            Ok(Some(additional))
        },
    }
}

/// The command layer of an ECR17 client: its configuration, from which every command's
/// messages are built.
#[derive(Debug, Clone)]
pub struct Ecr17Client {
    config: Ecr17Config,
}

impl Ecr17Client {
    /// The configuration of this client.
    pub closed spec fn cfg(&self) -> Ecr17Config {
        self.config
    }

    /// Creates a client with `config`.
    pub fn new(config: Ecr17Config) -> (c: Self)
        ensures
            c.cfg() == config,
    {
        Ecr17Client { config }
    }

    /// The active configuration.
    pub fn configuration(&self) -> (c: &Ecr17Config)
        ensures
            *c == self.cfg(),
    {
        &self.config
    }

    /// The session settings this client runs its exchanges with.
    pub fn session_config(&self) -> (c: SessionConfig)
        ensures
            c == session_config_spec(self.cfg()),
    {
        session_config(&self.config)
    }

    /// The request's cash-register id, else the configured one.
    fn cash_register_id_or<'a>(&'a self, o: &'a Option<String>) -> (r: &'a str)
        ensures
            r@ == crid_or(self.cfg(), *o),
    {
        match o {
            Some(s) => s.as_str(),
            None => self.config.cash_register_id.as_str(),
        }
    }

    /// A main message, then the tokenization data if requested; not replayable.
    fn financial(&self, main: String, tok: &Option<TokenizationRequest>) -> (r: Result<ExchangeRequest, Ecr17Error>)
        ensures
            requested(
                r,
                tokenization_error(self.cfg().terminal_id@, *tok),
                bytes_of(main@),
                tokenization_message(self.cfg().terminal_id@, *tok),
                false,
                false,
            ),
    {
        let additional_payload = tokenization_payload(self.config.terminal_id.as_str(), tok)?;
        Ok(ExchangeRequest { main_payload: main, additional_payload, ack_only: false, safe_to_retry: false })
    }

    /// A main message awaiting its result.
    fn plain(main: String, safe_to_retry: bool) -> (r: ExchangeRequest)
        ensures
            r.main_payload == main,
            r.additional_payload is None,
            !r.ack_only,
            r.safe_to_retry == safe_to_retry,
    {
        ExchangeRequest { main_payload: main, additional_payload: None, ack_only: false, safe_to_retry }
    }

    /// Status (`s`): read-only, so replayable.
    pub fn status_request(&self) -> (r: Result<ExchangeRequest, Ecr17Error>)
        ensures
            requested(r, overflow(self.cfg().terminal_id@, 8), status_bytes(self.cfg().terminal_id@), None, false, true),
    {
        let main = build_status(self.config.terminal_id.as_str())?;
        Ok(Self::plain(main, true))
    }

    /// Payment (`P`), with tokenization data when requested.
    pub fn pay_request(&self, request: &PaymentRequest) -> (r: Result<ExchangeRequest, Ecr17Error>)
        ensures
            requested(
                r,
                or_else(
                    payment_like_error(self.cfg().terminal_id@, crid_or(self.cfg(), request.cash_register_id),
                        request.amount_cents as int, type_digit(request.payment_type), text_or_empty(request.receipt_text)),
                    tokenization_error(self.cfg().terminal_id@, request.tokenization),
                ),
                payment_like_bytes(0x50u8, self.cfg().terminal_id@, crid_or(self.cfg(), request.cash_register_id),
                    request.amount_cents as int, type_digit(request.payment_type), flag_or_off(request.card_already_present),
                    request.tokenization is Some, text_or_empty(request.receipt_text)),
                tokenization_message(self.cfg().terminal_id@, request.tokenization),
                false,
                false,
            ),
    {
        let main = build_payment(
            self.config.terminal_id.as_str(),
            self.cash_register_id_or(&request.cash_register_id),
            request.amount_cents,
            digit_of(request.payment_type),
            flag_of(request.card_already_present),
            request.tokenization.is_some(),
            text_or_empty_str(&request.receipt_text),
        )?;
        self.financial(main, &request.tokenization)
    }

    /// Extended payment (`X`), with tokenization data when requested.
    pub fn pay_extended_request(&self, request: &PaymentRequest) -> (r: Result<ExchangeRequest, Ecr17Error>)
        ensures
            requested(
                r,
                or_else(
                    payment_like_error(self.cfg().terminal_id@, crid_or(self.cfg(), request.cash_register_id),
                        request.amount_cents as int, type_digit(request.payment_type), text_or_empty(request.receipt_text)),
                    tokenization_error(self.cfg().terminal_id@, request.tokenization),
                ),
                payment_like_bytes(0x58u8, self.cfg().terminal_id@, crid_or(self.cfg(), request.cash_register_id),
                    request.amount_cents as int, type_digit(request.payment_type), flag_or_off(request.card_already_present),
                    request.tokenization is Some, text_or_empty(request.receipt_text)),
                tokenization_message(self.cfg().terminal_id@, request.tokenization),
                false,
                false,
            ),
    {
        let main = build_extended_payment(
            self.config.terminal_id.as_str(),
            self.cash_register_id_or(&request.cash_register_id),
            request.amount_cents,
            digit_of(request.payment_type),
            flag_of(request.card_already_present),
            request.tokenization.is_some(),
            text_or_empty_str(&request.receipt_text),
        )?;
        self.financial(main, &request.tokenization)
    }

    /// Reversal (`S`); without a STAN it reverses the last payment (`"000000"`).
    pub fn reverse_request(&self, request: &ReversalRequest) -> (r: Result<ExchangeRequest, Ecr17Error>)
        ensures
            requested(
                r,
                reversal_error(self.cfg().terminal_id@, crid_or(self.cfg(), request.cash_register_id), stan_or_last(request.stan)),
                reversal_bytes(self.cfg().terminal_id@, crid_or(self.cfg(), request.cash_register_id), stan_or_last(request.stan)),
                None,
                false,
                false,
            ),
    {
        let stan: &str = match &request.stan {
            Some(s) => s.as_str(),
            None => "000000",
        };
        let main = build_reversal(
            self.config.terminal_id.as_str(),
            self.cash_register_id_or(&request.cash_register_id),
            stan,
        )?;
        Ok(Self::plain(main, false))
    }

    /// Pre-auth (`p`), with tokenization data when requested.
    pub fn pre_auth_request(&self, request: &PreAuthRequest) -> (r: Result<ExchangeRequest, Ecr17Error>)
        ensures
            requested(
                r,
                or_else(
                    payment_like_error(self.cfg().terminal_id@, crid_or(self.cfg(), request.cash_register_id),
                        request.amount_cents as int, type_digit(request.payment_type), text_or_empty(request.receipt_text)),
                    tokenization_error(self.cfg().terminal_id@, request.tokenization),
                ),
                payment_like_bytes(0x70u8, self.cfg().terminal_id@, crid_or(self.cfg(), request.cash_register_id),
                    request.amount_cents as int, type_digit(request.payment_type), flag_or_off(request.card_already_present),
                    request.tokenization is Some, text_or_empty(request.receipt_text)),
                tokenization_message(self.cfg().terminal_id@, request.tokenization),
                false,
                false,
            ),
    {
        let main = build_pre_auth(
            self.config.terminal_id.as_str(),
            self.cash_register_id_or(&request.cash_register_id),
            request.amount_cents,
            digit_of(request.payment_type),
            flag_of(request.card_already_present),
            request.tokenization.is_some(),
            text_or_empty_str(&request.receipt_text),
        )?;
        self.financial(main, &request.tokenization)
    }

    /// Incremental pre-auth (`i`).
    pub fn incremental_auth_request(&self, request: &IncrementalAuthRequest) -> (r: Result<ExchangeRequest, Ecr17Error>)
        ensures
            requested(
                r,
                follow_up_error(self.cfg().terminal_id@, crid_or(self.cfg(), request.cash_register_id),
                    request.amount_cents as int, request.original_pre_auth_code@, text_or_empty(request.receipt_text)),
                follow_up_bytes(0x69u8, self.cfg().terminal_id@, crid_or(self.cfg(), request.cash_register_id),
                    request.amount_cents as int, request.original_pre_auth_code@, false, text_or_empty(request.receipt_text)),
                None,
                false,
                false,
            ),
    {
        let main = build_incremental(
            self.config.terminal_id.as_str(),
            self.cash_register_id_or(&request.cash_register_id),
            request.amount_cents,
            request.original_pre_auth_code.as_str(),
            false,
            text_or_empty_str(&request.receipt_text),
        )?;
        Ok(Self::plain(main, false))
    }

    /// Pre-auth closure (`c`).
    pub fn pre_auth_closure_request(&self, request: &PreAuthClosureRequest) -> (r: Result<ExchangeRequest, Ecr17Error>)
        ensures
            requested(
                r,
                follow_up_error(self.cfg().terminal_id@, crid_or(self.cfg(), request.cash_register_id),
                    request.amount_cents as int, request.original_pre_auth_code@, text_or_empty(request.receipt_text)),
                follow_up_bytes(0x63u8, self.cfg().terminal_id@, crid_or(self.cfg(), request.cash_register_id),
                    request.amount_cents as int, request.original_pre_auth_code@, false, text_or_empty(request.receipt_text)),
                None,
                false,
                false,
            ),
    {
        let main = build_pre_auth_closure(
            self.config.terminal_id.as_str(),
            self.cash_register_id_or(&request.cash_register_id),
            request.amount_cents,
            request.original_pre_auth_code.as_str(),
            false,
            text_or_empty_str(&request.receipt_text),
        )?;
        Ok(Self::plain(main, false))
    }

    /// Card verification (`H`), with tokenization data when requested.
    pub fn verify_card_request(&self, request: &CardVerificationRequest) -> (r: Result<ExchangeRequest, Ecr17Error>)
        ensures
            requested(
                r,
                or_else(
                    card_verification_error(self.cfg().terminal_id@, crid_or(self.cfg(), request.cash_register_id),
                        type_digit(request.payment_type)),
                    tokenization_error(self.cfg().terminal_id@, request.tokenization),
                ),
                card_verification_bytes(self.cfg().terminal_id@, crid_or(self.cfg(), request.cash_register_id),
                    type_digit(request.payment_type), request.tokenization is Some),
                tokenization_message(self.cfg().terminal_id@, request.tokenization),
                false,
                false,
            ),
    {
        let main = build_card_verification(
            self.config.terminal_id.as_str(),
            self.cash_register_id_or(&request.cash_register_id),
            digit_of(request.payment_type),
            request.tokenization.is_some(),
        )?;
        self.financial(main, &request.tokenization)
    }

    /// Close session (`C`).
    pub fn close_session_request(&self) -> (r: Result<ExchangeRequest, Ecr17Error>)
        ensures
            requested(
                r,
                ids_error(self.cfg().terminal_id@, self.cfg().cash_register_id@),
                session_command_bytes(0x43u8, self.cfg().terminal_id@, self.cfg().cash_register_id@, false),
                None,
                false,
                false,
            ),
    {
        let main = build_close_session(self.config.terminal_id.as_str(), self.config.cash_register_id.as_str(), false)?;
        Ok(Self::plain(main, false))
    }

    /// Totals (`T`): read-only, so replayable.
    pub fn totals_request(&self) -> (r: Result<ExchangeRequest, Ecr17Error>)
        ensures
            requested(
                r,
                ids_error(self.cfg().terminal_id@, self.cfg().cash_register_id@),
                session_command_bytes(0x54u8, self.cfg().terminal_id@, self.cfg().cash_register_id@, false),
                None,
                false,
                true,
            ),
    {
        let main = build_totals(self.config.terminal_id.as_str(), self.config.cash_register_id.as_str(), false)?;
        Ok(Self::plain(main, true))
    }

    /// Send last result (`G`): recovers a lost financial response without charging again,
    /// so replayable.
    pub fn send_last_result_request(&self) -> (r: Result<ExchangeRequest, Ecr17Error>)
        ensures
            requested(
                r,
                ids_error(self.cfg().terminal_id@, self.cfg().cash_register_id@),
                send_last_result_bytes(self.cfg().terminal_id@, self.cfg().cash_register_id@, false),
                None,
                false,
                true,
            ),
    {
        let main = build_send_last_result(self.config.terminal_id.as_str(), self.config.cash_register_id.as_str(), false)?;
        Ok(Self::plain(main, true))
    }

    /// Enable / disable ECR printing (`E`): answered by the `ACK` alone; replayable.
    pub fn enable_ecr_printing_request(&self, enabled: bool) -> (r: Result<ExchangeRequest, Ecr17Error>)
        ensures
            requested(
                r,
                overflow(self.cfg().terminal_id@, 8),
                enable_ecr_print_bytes(self.cfg().terminal_id@, enabled),
                None,
                true,
                true,
            ),
    {
        let main = build_enable_ecr_print(self.config.terminal_id.as_str(), enabled)?;
        Ok(ExchangeRequest { main_payload: main, additional_payload: None, ack_only: true, safe_to_retry: true })
    }

    /// Reprint the last ticket (`R`, ticket type `'0'`): answered by the `ACK` alone; not
    /// replayed (it prints).
    pub fn reprint_request(&self, to_ecr: bool) -> (r: Result<ExchangeRequest, Ecr17Error>)
        ensures
            requested(
                r,
                overflow(self.cfg().terminal_id@, 8),
                reprint_bytes(self.cfg().terminal_id@, to_ecr, '0'),
                None,
                true,
                false,
            ),
    {
        let main = build_reprint(self.config.terminal_id.as_str(), to_ecr, '0')?;
        Ok(ExchangeRequest { main_payload: main, additional_payload: None, ack_only: true, safe_to_retry: false })
    }

    /// VAS (`K`) with the XML request.
    pub fn vas_request(&self, xml_request: &str) -> (r: Result<ExchangeRequest, Ecr17Error>)
        ensures
            requested(
                r,
                vas_error(self.cfg().terminal_id@, self.cfg().cash_register_id@, xml_request@),
                vas_bytes(self.cfg().terminal_id@, self.cfg().cash_register_id@, xml_request@),
                None,
                false,
                false,
            ),
    {
        let main = build_vas(self.config.terminal_id.as_str(), self.config.cash_register_id.as_str(), xml_request)?;
        Ok(Self::plain(main, false))
    }

    /// What to do after a command failed mid-exchange, given whether the transport is still
    /// connected: reconnect when auto-reconnect is on and the transport dropped; replay
    /// (once reconnected) only a replayable command — never a financial one.
    pub fn recovery_plan(&self, connected: bool, safe_to_retry: bool) -> (p: RecoveryPlan)
        ensures
            p.reconnect == (auto_reconnect_of(self.cfg()) && !connected),
            p.replay == retry_allowed(auto_reconnect_of(self.cfg()), !connected, safe_to_retry),
    {
        let auto_reconnect = match self.config.auto_reconnect {
            Some(b) => b,
            None => false,
        };
        let dropped = !connected;
        RecoveryPlan {
            reconnect: auto_reconnect && dropped,
            replay: should_retry_after_reconnect(auto_reconnect, dropped, safe_to_retry),
        }
    }
}

/// Whether the configuration asks for auto-reconnect (off when unset).
pub open spec fn auto_reconnect_of(c: Ecr17Config) -> bool {
    match c.auto_reconnect {
        Some(b) => b,
        None => false,
    }
}

/// The STAN of a reversal: the given one, else `"000000"` (the last payment, unchecked).
pub open spec fn stan_or_last(o: Option<String>) -> Seq<char> {
    match o {
        Some(s) => s@,
        None => "000000"@,
    }
}

/// The recovery after a failed exchange: whether to reconnect first, and whether the
/// command may then be replayed (after a successful reconnect when one was needed).
#[derive(Debug, Clone, Copy, PartialEq, Eq, Structural)]
pub struct RecoveryPlan {
    /// Reconnect the transport before anything else.
    pub reconnect: bool,
    /// Replay the command.
    pub replay: bool,
}

/// On a pre-auth that was not refused, no card type is reported: that field would overlap
/// the last digit of the pre-authorized amount.
pub proof fn lemma_pre_auth_card_type_only_when_refused(text: Seq<u8>)
    ensures
        !(pre_auth_spec(text).outcome is Ko) ==> card_type_of(pre_auth_spec(text).card_type) is None,
{
    assert(seq![0x31u8].len() == 1 && seq![0x32u8].len() == 1 && seq![0x33u8].len() == 1);
}

/// The DCC block of a payment result is read from the DCC fields of a `V` response whose
/// DCC flag (position 83) is `'1'`: the converted amount is the 12-digit field at positions
/// 95-106 (not the rate), the rate the raw 8 digits at 84-91, the precision the digit at
/// 107, the currency the code at 92-94. Any other response carries no DCC block.
pub proof fn lemma_dcc_fields(r: PaymentResult, b: Seq<u8>)
    requires
        payment_result_matches(r, payment_spec(b)),
    ensures
        r.currency_exchange is Some <==> (fld(b, 10, 1) == seq![0x56u8] && fld(b, 83, 1) == seq![0x31u8]),
        r.currency_exchange matches Some(x) ==> {
            &&& x.applied
            &&& x.amount_cents == opt_i64_spec(crate::text::field_bytes(b, 95, 12))
            &&& bytes_of(x.rate_raw@) == crate::text::field_bytes(b, 84, 8)
            &&& x.precision == opt_i32_spec(crate::text::field_bytes(b, 107, 1))
            &&& opt_bytes(x.currency_code) == nonempty(crate::text::trim_end_spaces(crate::text::field_bytes(b, 92, 3)))
        },
{
}

/// After a mid-command failure a financial (non-replayable) command is never replayed,
/// whatever the configuration and connection state.
pub proof fn lemma_financial_command_never_replayed(client: Ecr17Client, connected: bool)
    ensures
        !retry_allowed(auto_reconnect_of(client.cfg()), !connected, false),
{
}

} // verus!
