//! Parsers for ECR17 terminal response messages.
//!
//! Each parser takes the application payload (the bytes between `STX` and `ETX`, as text)
//! and returns the raw fields at their fixed 1-based byte offsets. Parsing is defensive: a
//! field that starts beyond the payload comes back empty and a partial field is clamped.
use vstd::prelude::*;
use crate::types::TransactionOutcome;
use crate::text::{
    bytes_of, field, field_bytes, trim_end_spaces, trim_end_spaces_str, trim_ws, trim_whitespace,
    lemma_boundary_after_ascii, lemma_ascii_byte_boundary, empty_string,
};
use crate::codec::is_first_index;

verus! {

broadcast use vstd::utf8::encode_utf8_valid_utf8, vstd::utf8::encode_utf8_decode_utf8;

/// The outcome of a raw result code.
pub open spec fn outcome_of(code: Seq<u8>) -> TransactionOutcome {
    if code == seq![0x30u8, 0x30u8] {
        TransactionOutcome::Approved
    } else if code == seq![0x30u8, 0x31u8] {
        TransactionOutcome::Ko
    } else if code == seq![0x30u8, 0x35u8] {
        TransactionOutcome::CardNotPresent
    } else if code == seq![0x30u8, 0x39u8] {
        TransactionOutcome::UnknownTag
    } else {
        TransactionOutcome::Unknown
    }
}

/// Maps the raw 2-digit result code to a [`TransactionOutcome`].
pub fn outcome_from_code(code: &str) -> (r: TransactionOutcome)
    ensures
        r == outcome_of(bytes_of(code@)),
{
    let b = code.as_bytes();
    if b.len() != 2 || b[0] != 0x30 {
        proof {
            assert(b@ != seq![0x30u8, 0x30u8]);
            assert(b@ != seq![0x30u8, 0x31u8]);
            assert(b@ != seq![0x30u8, 0x35u8]);
            assert(b@ != seq![0x30u8, 0x39u8]);
        }
        return TransactionOutcome::Unknown;
    }
    let d = b[1];
    proof {
        assert(b@ =~= seq![0x30u8, d]);
    }
    if d == 0x30 {
        TransactionOutcome::Approved
    } else if d == 0x31 {
        TransactionOutcome::Ko
    } else if d == 0x35 {
        TransactionOutcome::CardNotPresent
    } else if d == 0x39 {
        TransactionOutcome::UnknownTag
    } else {
        proof {
            assert(seq![0x30u8, d][1] == d);
        }
        TransactionOutcome::Unknown
    }
}

/// A field of the payload `b`.
pub open spec fn fld(b: Seq<u8>, pos1: int, len: int) -> Seq<u8> {
    field_bytes(b, pos1, len)
}

/// A field of the payload `b` without trailing spaces.
pub open spec fn fld_trim(b: Seq<u8>, pos1: int, len: int) -> Seq<u8> {
    trim_end_spaces(field_bytes(b, pos1, len))
}

/// The field as an owned string.
fn field_string(p: &str, pos1: usize, len: usize) -> (r: String)
    ensures
        bytes_of(r@) == fld(bytes_of(p@), pos1 as int, len as int),
{
    String::from_str(field(p, pos1, len))
}

/// The field without trailing spaces, as an owned string.
fn field_string_trimmed(p: &str, pos1: usize, len: usize) -> (r: String)
    ensures
        bytes_of(r@) == fld_trim(bytes_of(p@), pos1 as int, len as int),
{
    String::from_str(trim_end_spaces_str(field(p, pos1, len)))
}

// ---------------------------------------------------------------------------
// Raw response structures
// ---------------------------------------------------------------------------

/// Optional DCC / currency-exchange block of a `'V'` payment response.
#[derive(Debug, Clone, Default, PartialEq, Eq)]
pub struct DccInfo {
    /// Whether DCC was applied (flag byte `'1'`).
    pub applied: bool,
    /// Rate (8 digits, 4 decimals), raw.
    pub rate: String,
    /// Currency code (alpha-3), raw.
    pub currency_code: String,
    /// Converted amount (12 digits), raw.
    pub amount: String,
    /// Decimal precision, raw.
    pub precision: String,
}

/// The byte contents of a [`DccInfo`].
pub struct DccView {
    pub applied: bool,
    pub rate: Seq<u8>,
    pub currency_code: Seq<u8>,
    pub amount: Seq<u8>,
    pub precision: Seq<u8>,
}

impl View for DccInfo {
    type V = DccView;

    open spec fn view(&self) -> DccView {
        DccView {
            applied: self.applied,
            rate: bytes_of(self.rate@),
            currency_code: bytes_of(self.currency_code@),
            amount: bytes_of(self.amount@),
            precision: bytes_of(self.precision@),
        }
    }
}

/// Raw payment-family response (`'E'` plain, `'V'` with DCC); also used for reversal, card
/// verification, closure and last-result responses, which share the layout.
#[derive(Debug, Clone, Default, PartialEq, Eq)]
pub struct PaymentResponse {
    /// Normalized outcome.
    pub outcome: TransactionOutcome,
    /// Raw result code.
    pub result_code: String,
    /// PAN (positive), raw.
    pub pan: String,
    /// Transaction / entry type (positive), raw.
    pub transaction_type: String,
    /// Authorization code (positive), raw.
    pub auth_code: String,
    /// Host date/time (positive), raw `DDDHHMM`.
    pub host_date_time: String,
    /// Error description (negative), raw.
    pub error_description: String,
    /// Card type, raw `"1"`/`"2"`/`"3"`.
    pub card_type: String,
    /// Acquirer id, raw.
    pub acquirer_id: String,
    /// STAN, raw.
    pub stan: String,
    /// Online id, raw.
    pub online_id: String,
    /// DCC block (only filled by a `'V'` response).
    pub currency: DccInfo,
}

/// The byte contents of a [`PaymentResponse`].
pub struct PaymentView {
    pub outcome: TransactionOutcome,
    pub result_code: Seq<u8>,
    pub pan: Seq<u8>,
    pub transaction_type: Seq<u8>,
    pub auth_code: Seq<u8>,
    pub host_date_time: Seq<u8>,
    pub error_description: Seq<u8>,
    pub card_type: Seq<u8>,
    pub acquirer_id: Seq<u8>,
    pub stan: Seq<u8>,
    pub online_id: Seq<u8>,
    pub currency: DccView,
}

impl View for PaymentResponse {
    type V = PaymentView;

    open spec fn view(&self) -> PaymentView {
        PaymentView {
            outcome: self.outcome,
            result_code: bytes_of(self.result_code@),
            pan: bytes_of(self.pan@),
            transaction_type: bytes_of(self.transaction_type@),
            auth_code: bytes_of(self.auth_code@),
            host_date_time: bytes_of(self.host_date_time@),
            error_description: bytes_of(self.error_description@),
            card_type: bytes_of(self.card_type@),
            acquirer_id: bytes_of(self.acquirer_id@),
            stan: bytes_of(self.stan@),
            online_id: bytes_of(self.online_id@),
            currency: self.currency@,
        }
    }
}

/// Raw status response (`'s'`).
#[derive(Debug, Clone, Default, PartialEq, Eq)]
pub struct StatusResponse {
    /// Terminal id, raw.
    pub terminal_id: String,
    /// Date/time, raw `DDMMYYhhmm`.
    pub date_time_raw: String,
    /// Status code `0..=9` from the status digit, or `-1` if missing / not a digit.
    pub status: i32,
    /// Firmware / software release, raw.
    pub software_release: String,
}

/// The byte contents of a [`StatusResponse`].
pub struct StatusView {
    pub terminal_id: Seq<u8>,
    pub date_time_raw: Seq<u8>,
    pub status: i32,
    pub software_release: Seq<u8>,
}

impl View for StatusResponse {
    type V = StatusView;

    open spec fn view(&self) -> StatusView {
        StatusView {
            terminal_id: bytes_of(self.terminal_id@),
            date_time_raw: bytes_of(self.date_time_raw@),
            status: self.status,
            software_release: bytes_of(self.software_release@),
        }
    }
}

/// Raw totals response (`'T'`).
#[derive(Debug, Clone, Default, PartialEq, Eq)]
pub struct TotalsResponse {
    /// Normalized outcome.
    pub outcome: TransactionOutcome,
    /// Raw result code.
    pub result_code: String,
    /// POS total (16 digits, cents), raw.
    pub pos_total: String,
}

/// The byte contents of a [`TotalsResponse`].
pub struct TotalsView {
    pub outcome: TransactionOutcome,
    pub result_code: Seq<u8>,
    pub pos_total: Seq<u8>,
}

impl View for TotalsResponse {
    type V = TotalsView;

    open spec fn view(&self) -> TotalsView {
        TotalsView {
            outcome: self.outcome,
            result_code: bytes_of(self.result_code@),
            pos_total: bytes_of(self.pos_total@),
        }
    }
}

/// Raw close-session response (`'C'`).
#[derive(Debug, Clone, Default, PartialEq, Eq)]
pub struct CloseResponse {
    /// Normalized outcome.
    pub outcome: TransactionOutcome,
    /// Raw result code.
    pub result_code: String,
    /// POS total (positive, 16 digits), raw.
    pub pos_total: String,
    /// Host total (positive, 16 digits), raw.
    pub host_total: String,
    /// Error description (negative), raw.
    pub error_description: String,
    /// Action code (negative), raw.
    pub action_code: String,
}

/// The byte contents of a [`CloseResponse`].
pub struct CloseView {
    pub outcome: TransactionOutcome,
    pub result_code: Seq<u8>,
    pub pos_total: Seq<u8>,
    pub host_total: Seq<u8>,
    pub error_description: Seq<u8>,
    pub action_code: Seq<u8>,
}

impl View for CloseResponse {
    type V = CloseView;

    open spec fn view(&self) -> CloseView {
        CloseView {
            outcome: self.outcome,
            result_code: bytes_of(self.result_code@),
            pos_total: bytes_of(self.pos_total@),
            host_total: bytes_of(self.host_total@),
            error_description: bytes_of(self.error_description@),
            action_code: bytes_of(self.action_code@),
        }
    }
}

/// Raw pre-auth response (`'e'`).
#[derive(Debug, Clone, Default, PartialEq, Eq)]
pub struct PreAuthResponse {
    /// Normalized outcome.
    pub outcome: TransactionOutcome,
    /// Raw result code.
    pub result_code: String,
    /// PAN, raw.
    pub pan: String,
    /// Transaction / entry type, raw.
    pub transaction_type: String,
    /// Authorization code, raw.
    pub auth_code: String,
    /// Pre-authorized amount (8 digits, cents), raw.
    pub pre_authorized_amount: String,
    /// Pre-auth code (9 digits), raw.
    pub pre_auth_code: String,
    /// Action code, raw.
    pub action_code: String,
    /// Host date/time, raw.
    pub host_date_time: String,
    /// Error description, raw.
    pub error_description: String,
    /// Card type, raw (only in the declined layout).
    pub card_type: String,
    /// Acquirer id, raw.
    pub acquirer_id: String,
    /// STAN, raw.
    pub stan: String,
    /// Online id, raw.
    pub online_id: String,
}

/// The byte contents of a [`PreAuthResponse`].
pub struct PreAuthView {
    pub outcome: TransactionOutcome,
    pub result_code: Seq<u8>,
    pub pan: Seq<u8>,
    pub transaction_type: Seq<u8>,
    pub auth_code: Seq<u8>,
    pub pre_authorized_amount: Seq<u8>,
    pub pre_auth_code: Seq<u8>,
    pub action_code: Seq<u8>,
    pub host_date_time: Seq<u8>,
    pub error_description: Seq<u8>,
    pub card_type: Seq<u8>,
    pub acquirer_id: Seq<u8>,
    pub stan: Seq<u8>,
    pub online_id: Seq<u8>,
}

impl View for PreAuthResponse {
    type V = PreAuthView;

    open spec fn view(&self) -> PreAuthView {
        PreAuthView {
            outcome: self.outcome,
            result_code: bytes_of(self.result_code@),
            pan: bytes_of(self.pan@),
            transaction_type: bytes_of(self.transaction_type@),
            auth_code: bytes_of(self.auth_code@),
            pre_authorized_amount: bytes_of(self.pre_authorized_amount@),
            pre_auth_code: bytes_of(self.pre_auth_code@),
            action_code: bytes_of(self.action_code@),
            host_date_time: bytes_of(self.host_date_time@),
            error_description: bytes_of(self.error_description@),
            card_type: bytes_of(self.card_type@),
            acquirer_id: bytes_of(self.acquirer_id@),
            stan: bytes_of(self.stan@),
            online_id: bytes_of(self.online_id@),
        }
    }
}

/// Raw VAS response (`'K'`).
#[derive(Debug, Clone, Default, PartialEq, Eq)]
pub struct VasResponse {
    /// `RESPID` from the XML (`"0"` = OK); empty if absent.
    pub response_id: String,
    /// `RESPMSG`.
    pub response_message: String,
    /// `ORDER_ID`.
    pub order_id: String,
    /// Concatenation flag (`'1'`: more messages follow).
    pub more_messages: bool,
    /// 3-digit sequence id.
    pub id_message: String,
    /// The XML body of this message.
    pub raw_xml: String,
}

// ---------------------------------------------------------------------------
// Specifications of the parsers
// ---------------------------------------------------------------------------

/// What [`parse_payment`] reads from the payload bytes `b`.
pub open spec fn payment_spec(b: Seq<u8>) -> PaymentView {
    let code = fld(b, 11, 2);
    let outcome = outcome_of(code);
    let ko = outcome is Ko;
    let empty = Seq::<u8>::empty();
    let dcc = fld(b, 10, 1) == seq![0x56u8];
    PaymentView {
        outcome,
        result_code: code,
        pan: if ko { empty } else { fld(b, 13, 19) },
        transaction_type: if ko { empty } else { fld_trim(b, 32, 3) },
        auth_code: if ko { empty } else { fld_trim(b, 35, 6) },
        host_date_time: if ko { empty } else { fld(b, 41, 7) },
        error_description: if ko { fld_trim(b, 13, 24) } else { empty },
        card_type: fld(b, 48, 1),
        acquirer_id: fld_trim(b, 49, 11),
        stan: fld(b, 60, 6),
        online_id: fld(b, 66, 6),
        currency: if dcc {
            DccView {
                applied: fld(b, 83, 1) == seq![0x31u8],
                rate: fld(b, 84, 8),
                currency_code: fld_trim(b, 92, 3),
                amount: fld(b, 95, 12),
                precision: fld(b, 107, 1),
            }
        } else {
            DccView { applied: false, rate: empty, currency_code: empty, amount: empty, precision: empty }
        },
    }
}

/// The status digit of a one-byte field, or `-1`.
pub open spec fn status_digit(f: Seq<u8>) -> i32 {
    if f.len() > 0 && 0x30 <= f[0] <= 0x39 { (f[0] - 0x30) as i32 } else { -1i32 }
}

/// What [`parse_status`] reads from the payload bytes `b`.
pub open spec fn status_spec(b: Seq<u8>) -> StatusView {
    StatusView {
        terminal_id: fld(b, 1, 8),
        date_time_raw: fld(b, 21, 10),
        status: status_digit(fld(b, 31, 1)),
        software_release: fld_trim(b, 32, b.len() as int),
    }
}

/// What [`parse_totals`] reads from the payload bytes `b`.
pub open spec fn totals_spec(b: Seq<u8>) -> TotalsView {
    TotalsView { outcome: outcome_of(fld(b, 11, 2)), result_code: fld(b, 11, 2), pos_total: fld(b, 13, 16) }
}

/// What [`parse_close`] reads from the payload bytes `b`.
pub open spec fn close_spec(b: Seq<u8>) -> CloseView {
    let code = fld(b, 11, 2);
    let ok = outcome_of(code) is Approved;
    let empty = Seq::<u8>::empty();
    CloseView {
        outcome: outcome_of(code),
        result_code: code,
        pos_total: if ok { fld(b, 13, 16) } else { empty },
        host_total: if ok { fld(b, 29, 16) } else { empty },
        error_description: if ok { empty } else { fld_trim(b, 13, 19) },
        action_code: if ok { empty } else { fld(b, 32, 3) },
    }
}

/// What [`parse_pre_auth`] reads from the payload bytes `b`.
pub open spec fn pre_auth_spec(b: Seq<u8>) -> PreAuthView {
    let code = fld(b, 11, 2);
    let ko = outcome_of(code) is Ko;
    let empty = Seq::<u8>::empty();
    PreAuthView {
        outcome: outcome_of(code),
        result_code: code,
        pan: if ko { empty } else { fld(b, 13, 19) },
        transaction_type: if ko { empty } else { fld_trim(b, 32, 3) },
        auth_code: if ko { empty } else { fld_trim(b, 35, 6) },
        pre_authorized_amount: if ko { empty } else { fld(b, 41, 8) },
        pre_auth_code: if ko { empty } else { fld(b, 49, 9) },
        action_code: if ko { fld(b, 37, 3) } else { fld(b, 58, 3) },
        host_date_time: if ko { empty } else { fld(b, 61, 7) },
        error_description: if ko { fld_trim(b, 13, 24) } else { empty },
        card_type: if ko { fld(b, 48, 1) } else { empty },
        acquirer_id: fld_trim(b, 72, 11),
        stan: fld(b, 83, 6),
        online_id: fld(b, 89, 6),
    }
}

/// The search key of a VAS XML parameter: `"KEY">`.
pub open spec fn xml_needle(key: Seq<u8>) -> Seq<u8> {
    seq![0x22u8] + key + seq![0x22u8, 0x3Eu8]
}

/// `n` occurs in `h` at position `k`.
pub open spec fn occurs_at(h: Seq<u8>, n: Seq<u8>, k: int) -> bool {
    0 <= k && k + n.len() <= h.len() && h.subrange(k, k + n.len()) == n
}

/// `k` is the first position where `n` occurs in `h`.
pub open spec fn first_occurrence(h: Seq<u8>, n: Seq<u8>, k: int) -> bool {
    occurs_at(h, n, k) && forall|j: int| 0 <= j < k ==> !occurs_at(h, n, j)
}

/// The raw bytes of the value of `<p k="KEY">value</p>` in `xml`: from just after the first
/// `"KEY">` up to the next `<` (or the end); empty when the key is absent.
pub open spec fn xml_raw_value(xml: Seq<u8>, key: Seq<u8>) -> Seq<u8> {
    let n = xml_needle(key);
    if exists|k: int| first_occurrence(xml, n, k) {
        let k = choose|k: int| first_occurrence(xml, n, k);
        let rest = xml.subrange(k + n.len(), xml.len() as int);
        if exists|e: int| is_first_index(rest, 0x3Cu8, e) {
            rest.subrange(0, choose|e: int| is_first_index(rest, 0x3Cu8, e))
        } else {
            rest
        }
    } else {
        Seq::<u8>::empty()
    }
}

/// The trimmed value of the VAS XML parameter `key` in `xml`.
pub open spec fn xml_value_spec(xml: Seq<u8>, key: Seq<u8>) -> Seq<char> {
    trim_ws(vstd::utf8::decode_utf8(xml_raw_value(xml, key)))
}

// ---------------------------------------------------------------------------
// Parsers
// ---------------------------------------------------------------------------

/// Whether the field at `pos1` (1 byte) is exactly the byte `c`.
fn field_is(p: &str, pos1: usize, c: u8) -> (r: bool)
    ensures
        r == (fld(bytes_of(p@), pos1 as int, 1) == seq![c]),
{
    let f = field(p, pos1, 1).as_bytes();
    if f.len() == 1 && f[0] == c {
        proof {
            assert(f@ =~= seq![c]);
        }
        true
    } else {
        proof {
            if f@ == seq![c] {
                assert(f@.len() == 1);
            }
        }
        false
    }
}

/// Parses a payment-family response (`'E'` plain / `'V'` with DCC).
pub fn parse_payment(p: &str) -> (r: PaymentResponse)
    ensures
        r@ == payment_spec(bytes_of(p@)),
{
    let dcc = field_is(p, 10, 0x56);
    let result_code = field_string(p, 11, 2);
    let outcome = outcome_from_code(result_code.as_str());
    let ko = matches!(outcome, TransactionOutcome::Ko);
    let mut r = PaymentResponse {
        outcome,
        result_code,
        pan: empty_string(),
        transaction_type: empty_string(),
        auth_code: empty_string(),
        host_date_time: empty_string(),
        error_description: empty_string(),
        card_type: field_string(p, 48, 1),
        acquirer_id: field_string_trimmed(p, 49, 11),
        stan: field_string(p, 60, 6),
        online_id: field_string(p, 66, 6),
        currency: DccInfo {
            applied: false,
            rate: empty_string(),
            currency_code: empty_string(),
            amount: empty_string(),
            precision: empty_string(),
        },
    };
    if ko {
        r.error_description = field_string_trimmed(p, 13, 24);
    } else {
        r.pan = field_string(p, 13, 19);
        r.transaction_type = field_string_trimmed(p, 32, 3);
        r.auth_code = field_string_trimmed(p, 35, 6);
        r.host_date_time = field_string(p, 41, 7);
    }
    if dcc {
        r.currency = DccInfo {
            applied: field_is(p, 83, 0x31),
            rate: field_string(p, 84, 8),
            currency_code: field_string_trimmed(p, 92, 3),
            amount: field_string(p, 95, 12),
            precision: field_string(p, 107, 1),
        };
    }
    r
}

/// Parses a status response (`'s'`).
pub fn parse_status(p: &str) -> (r: StatusResponse)
    ensures
        r@ == status_spec(bytes_of(p@)),
{
    let s = field(p, 31, 1).as_bytes();
    let status: i32 = if s.len() > 0 && s[0] >= 0x30 && s[0] <= 0x39 {
        (s[0] - 0x30) as i32
    } else {
        -1
    };
    let n = p.as_bytes().len();
    StatusResponse {
        terminal_id: field_string(p, 1, 8),
        date_time_raw: field_string(p, 21, 10),
        status,
        software_release: field_string_trimmed(p, 32, n),
    }
}

/// Parses a totals response (`'T'`).
pub fn parse_totals(p: &str) -> (r: TotalsResponse)
    ensures
        r@ == totals_spec(bytes_of(p@)),
{
    let result_code = field_string(p, 11, 2);
    let outcome = outcome_from_code(result_code.as_str());
    TotalsResponse { outcome, result_code, pos_total: field_string(p, 13, 16) }
}

/// Parses a close-session response (`'C'`).
pub fn parse_close(p: &str) -> (r: CloseResponse)
    ensures
        r@ == close_spec(bytes_of(p@)),
{
    let result_code = field_string(p, 11, 2);
    let outcome = outcome_from_code(result_code.as_str());
    let mut r = CloseResponse {
        outcome,
        result_code,
        pos_total: empty_string(),
        host_total: empty_string(),
        error_description: empty_string(),
        action_code: empty_string(),
    };
    if matches!(outcome, TransactionOutcome::Approved) {
        r.pos_total = field_string(p, 13, 16);
        r.host_total = field_string(p, 29, 16);
    } else {
        r.error_description = field_string_trimmed(p, 13, 19);
        r.action_code = field_string(p, 32, 3);
    }
    r
}

/// Parses a pre-auth response (`'e'`). In the approved layout the pre-authorized amount
/// occupies positions 41..=48, so the card type is only read in the declined layout.
pub fn parse_pre_auth(p: &str) -> (r: PreAuthResponse)
    ensures
        r@ == pre_auth_spec(bytes_of(p@)),
{
    let result_code = field_string(p, 11, 2);
    let outcome = outcome_from_code(result_code.as_str());
    let ko = matches!(outcome, TransactionOutcome::Ko);
    let mut r = PreAuthResponse {
        outcome,
        result_code,
        pan: empty_string(),
        transaction_type: empty_string(),
        auth_code: empty_string(),
        pre_authorized_amount: empty_string(),
        pre_auth_code: empty_string(),
        action_code: empty_string(),
        host_date_time: empty_string(),
        error_description: empty_string(),
        card_type: empty_string(),
        acquirer_id: empty_string(),
        stan: empty_string(),
        online_id: empty_string(),
    };
    if ko {
        r.error_description = field_string_trimmed(p, 13, 24);
        r.action_code = field_string(p, 37, 3);
    } else {
        r.pan = field_string(p, 13, 19);
        r.transaction_type = field_string_trimmed(p, 32, 3);
        r.auth_code = field_string_trimmed(p, 35, 6);
        r.pre_authorized_amount = field_string(p, 41, 8);
        r.pre_auth_code = field_string(p, 49, 9);
        r.action_code = field_string(p, 58, 3);
        r.host_date_time = field_string(p, 61, 7);
    }
    if ko {
        r.card_type = field_string(p, 48, 1);
    }
    r.acquirer_id = field_string_trimmed(p, 72, 11);
    r.stan = field_string(p, 83, 6);
    r.online_id = field_string(p, 89, 6);
    r
}

/// Whether `n` occurs in `h` at position `k`.
fn occurs_at_exec(h: &[u8], n: &[u8], k: usize) -> (r: bool)
    requires
        k + n@.len() <= h@.len(),
    ensures
        r == occurs_at(h@, n@, k as int),
{
    let hl = h.len();
    let mut j: usize = 0;
    while j < n.len()
        invariant
            0 <= j <= n@.len(),
            hl == h@.len(),
            k + n@.len() <= h@.len(),
            forall|t: int| 0 <= t < j ==> h@[k + t] == n@[t],
        decreases n@.len() - j,
    {
        if h[k + j] != n[j] {
            proof {
                assert(h@.subrange(k as int, k + n@.len())[j as int] != n@[j as int]);
            }
            return false;
        }
        j = j + 1;
    }
    proof {
        assert(h@.subrange(k as int, k + n@.len()) =~= n@);
    }
    true
}

/// The first position where `n` occurs in `h` (`str::find` on bytes).
fn find_bytes(h: &[u8], n: &[u8]) -> (r: Option<usize>)
    ensures
        match r {
            Some(k) => first_occurrence(h@, n@, k as int),
            None => forall|k: int| !occurs_at(h@, n@, k),
        },
{
    if n.len() > h.len() {
        return None;
    }
    let last = h.len() - n.len();
    let mut k: usize = 0;
    loop
        invariant
            last == h@.len() - n@.len(),
            0 <= k <= last,
            forall|j: int| 0 <= j < k ==> !occurs_at(h@, n@, j),
        decreases last - k,
    {
        if occurs_at_exec(h, n, k) {
            return Some(k);
        }
        if k == last {
            proof {
                assert forall|j: int| !occurs_at(h@, n@, j) by {
                    if 0 <= j <= k {
                        if j == k {
                        }
                    }
                }
            }
            return None;
        }
        k = k + 1;
    }
}

/// Extracts the value of a VAS XML parameter `<p k="KEY">value</p>`, trimmed.
fn xml_value(xml: &str, key: &str) -> (r: String)
    ensures
        r@ == xml_value_spec(bytes_of(xml@), bytes_of(key@)),
{
    let h = xml.as_bytes();
    let hl = h.len();
    let k = key.as_bytes();
    let mut needle: Vec<u8> = Vec::new();
    needle.push(0x22);
    let mut i: usize = 0;
    while i < k.len()
        invariant
            0 <= i <= k@.len(),
            needle@ == seq![0x22u8] + k@.subrange(0, i as int),
        decreases k@.len() - i,
    {
        needle.push(k[i]);
        i = i + 1;
        proof {
            assert(needle@ =~= seq![0x22u8] + k@.subrange(0, i as int));
        }
    }
    needle.push(0x22);
    needle.push(0x3E);
    proof {
        assert(k@.subrange(0, k@.len() as int) =~= k@);
        assert(needle@ =~= xml_needle(k@));
    }
    let ghost nd = xml_needle(k@);
    match find_bytes(h, needle.as_slice()) {
        None => {
            proof {
                assert(!exists|q: int| first_occurrence(h@, nd, q));
                assert(xml_raw_value(h@, k@) =~= Seq::<u8>::empty());
                vstd::utf8::encode_utf8_decode_utf8(Seq::<char>::empty());
                assert(trim_ws(Seq::<char>::empty()) =~= Seq::<char>::empty());
            }
            empty_string()
        },
        Some(start) => {
            let from = start + needle.len();
            proof {
                let c = choose|q: int| first_occurrence(h@, nd, q);
                assert(c == start as int) by {
                    if c < start {
                        assert(!occurs_at(h@, nd, c));
                    }
                    if c > start {
                        assert(!occurs_at(h@, nd, start as int));
                    }
                }
                assert(h@.subrange(start as int, from as int)[nd.len() - 1] == 0x3Eu8);
                lemma_boundary_after_ascii(h@, from as int);
            }
            let (_, rest) = xml.split_at(from);
            let rb = rest.as_bytes();
            proof {
                assert(rb@ =~= h@.subrange(from as int, h@.len() as int));
            }
            let mut e: usize = 0;
            while e < rb.len() && rb[e] != 0x3C
                invariant
                    0 <= e <= rb@.len(),
                    forall|j: int| 0 <= j < e ==> rb@[j] != 0x3Cu8,
                decreases rb@.len() - e,
            {
                e = e + 1;
            }
            proof {
                if e < rb.len() {
                    assert(is_first_index(rb@, 0x3Cu8, e as int));
                    let c = choose|q: int| is_first_index(rb@, 0x3Cu8, q);
                    assert(c == e as int) by {
                        if c < e {
                            assert(rb@[c] != 0x3Cu8);
                        }
                        if c > e {
                            assert(rb@[e as int] != 0x3Cu8);
                        }
                    }
                } else {
                    assert(!exists|q: int| is_first_index(rb@, 0x3Cu8, q));
                    assert(rb@.subrange(0, e as int) =~= rb@);
                }
                lemma_ascii_byte_boundary(rb@, e as int);
            }
            let (value, _) = rest.split_at(e);
            proof {
                assert(bytes_of(value@) =~= rb@.subrange(0, e as int));
                assert(xml_raw_value(h@, k@) == bytes_of(value@));
            }
            let t = trim_whitespace(value);
            String::from_str(t)
        },
    }
}

/// Parses a VAS response (`'K'`): concatenation flag at 15, message id at 16..=18, XML
/// body from 27 on, and the `RESPID`, `RESPMSG`, `ORDER_ID` parameters of that XML.
pub fn parse_vas(p: &str) -> (r: VasResponse)
    ensures
        bytes_of(r.raw_xml@) == fld(bytes_of(p@), 27, bytes_of(p@).len() as int),
        r.response_id@ == xml_value_spec(bytes_of(r.raw_xml@), bytes_of("RESPID"@)),
        r.response_message@ == xml_value_spec(bytes_of(r.raw_xml@), bytes_of("RESPMSG"@)),
        r.order_id@ == xml_value_spec(bytes_of(r.raw_xml@), bytes_of("ORDER_ID"@)),
        r.more_messages == (fld(bytes_of(p@), 15, 1) == seq![0x31u8]),
        bytes_of(r.id_message@) == fld(bytes_of(p@), 16, 3),
{
    let n = p.as_bytes().len();
    let raw_xml = field_string(p, 27, n);
    let response_id = xml_value(raw_xml.as_str(), "RESPID");
    let response_message = xml_value(raw_xml.as_str(), "RESPMSG");
    let order_id = xml_value(raw_xml.as_str(), "ORDER_ID");
    VasResponse {
        response_id,
        response_message,
        order_id,
        more_messages: field_is(p, 15, 0x31),
        id_message: field_string(p, 16, 3),
        raw_xml,
    }
}

/// Where a pre-auth response (`e`) keeps its action code depends on the result: a declined
/// one (result code `"01"`, positions 11-12) has it at positions 37-39, right after its
/// 24-byte error description at 13-36; any other has it at positions 58-60, after the
/// pre-auth code, and no error description.
pub proof fn lemma_pre_auth_action_code_position(b: Seq<u8>)
    ensures
        field_bytes(b, 11, 2) == seq![0x30u8, 0x31u8] ==> {
            &&& pre_auth_spec(b).action_code == field_bytes(b, 37, 3)
            &&& pre_auth_spec(b).error_description == trim_end_spaces(field_bytes(b, 13, 24))
        },
        field_bytes(b, 11, 2) != seq![0x30u8, 0x31u8] ==> {
            &&& pre_auth_spec(b).action_code == field_bytes(b, 58, 3)
            &&& pre_auth_spec(b).error_description == Seq::<u8>::empty()
        },
{
    let code = field_bytes(b, 11, 2);
    if code != seq![0x30u8, 0x31u8] {
        if code == seq![0x30u8, 0x30u8] {
            assert(seq![0x30u8, 0x30u8][1] != seq![0x30u8, 0x31u8][1]);
        }
    }
}

} // verus!
