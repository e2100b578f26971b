//! Request / result / configuration data model.
use vstd::prelude::*;
use crate::lrc::LrcMode;

verus! {

/// Transport connection lifecycle.
#[derive(Debug, Clone, Copy, PartialEq, Eq, Structural, Default)]
pub enum ConnectionState {
    /// Not connected.
    #[default]
    Disconnected,
    /// Connection in progress.
    Connecting,
    /// Connected and ready.
    Connected,
}

/// Normalized transaction outcome, mapped from the raw 2-digit result code:
/// `"00"` ok, `"01"` ko, `"05"` card not present, `"09"` unknown tag.
#[derive(Debug, Clone, Copy, PartialEq, Eq, Structural, Default)]
pub enum TransactionOutcome {
    /// Approved (`"00"`).
    Approved,
    /// Declined / failed.
    Ko,
    /// The card was not present when required.
    CardNotPresent,
    /// The requested TAG was unknown to the terminal.
    UnknownTag,
    /// Unrecognized result code.
    #[default]
    Unknown,
}

/// Card category reported by the terminal (response "card type" `1`/`2`/`3`).
#[derive(Debug, Clone, Copy, PartialEq, Eq, Structural, Default)]
pub enum CardType {
    /// Debit card.
    Debit,
    /// Credit card.
    Credit,
    /// Other card product.
    Other,
    /// Unknown / not reported.
    #[default]
    Unknown,
}

/// How the card was read (response "transaction type" ICC/MAG/MAN/CLM/CLI).
#[derive(Debug, Clone, Copy, PartialEq, Eq, Structural, Default)]
pub enum TransactionEntryMode {
    /// Chip.
    Icc,
    /// Magnetic stripe.
    Mag,
    /// Manual PAN entry.
    Manual,
    /// Contactless magstripe.
    ClessMag,
    /// Contactless chip.
    ClessIcc,
    /// Unknown / not reported.
    #[default]
    Unknown,
}

/// Requested card handling for a payment (request "payment type" digit).
#[derive(Debug, Clone, Copy, PartialEq, Eq, Structural, Default)]
pub enum PaymentCardType {
    /// Let the terminal decide (`'0'`).
    #[default]
    Auto,
    /// Force debit (`'1'`).
    Debit,
    /// Force credit (`'2'`).
    Credit,
    /// Other (`'3'`).
    Other,
}

impl PaymentCardType {
    /// The request digit of this card handling.
    pub open spec fn digit(self) -> char {
        match self {
            PaymentCardType::Auto => '0',
            PaymentCardType::Debit => '1',
            PaymentCardType::Credit => '2',
            PaymentCardType::Other => '3',
        }
    }

    /// The single request digit (`'0'..='3'`) for this card handling.
    pub fn as_digit(self) -> (c: char)
        ensures
            c == self.digit(),
            '0' <= c && c <= '3',
    {
        match self {
            PaymentCardType::Auto => '0',
            PaymentCardType::Debit => '1',
            PaymentCardType::Credit => '2',
            PaymentCardType::Other => '3',
        }
    }
}

/// Tokenization service requested alongside a payment / pre-auth / verification (`U`).
#[derive(Debug, Clone, Copy, PartialEq, Eq, Structural)]
pub enum TokenizationService {
    /// Recurring (`0REC`).
    Recurring,
    /// Unscheduled / one-click (`0COF`).
    UnscheduledOrOneClick,
}

impl TokenizationService {
    /// Whether this is the recurring (`0REC`) mapping rather than one-click (`0COF`).
    pub fn is_recurring(self) -> (b: bool)
        ensures
            b == (self is Recurring),
    {
        matches!(self, TokenizationService::Recurring)
    }
}

/// Tokenization additional-data request (`U`).
#[derive(Debug, Clone, PartialEq, Eq)]
pub struct TokenizationRequest {
    /// Which tokenization mapping to request.
    pub service: TokenizationService,
    /// Unique contract code at merchant level, alphanumeric, up to 18 chars.
    pub contract_code: String,
}

/// Client / session configuration.
#[derive(Debug, Clone, PartialEq, Eq)]
pub struct Ecr17Config {
    /// POS terminal host (IP address).
    pub host: String,
    /// TCP port (terminal default when omitted).
    pub port: Option<u16>,
    /// Terminal identifier (max 8 chars).
    pub terminal_id: String,
    /// Cash-register identifier (max 8 chars).
    pub cash_register_id: String,
    /// LRC framing mode.
    pub lrc_mode: Option<LrcMode>,
    /// Keep the socket open between transactions.
    pub keep_alive: Option<bool>,
    /// Reconnect automatically on a mid-session drop (financial operations are still never
    /// replayed).
    pub auto_reconnect: Option<bool>,
    /// Connection timeout (ms).
    pub connection_timeout_ms: Option<u32>,
    /// Application-response timeout (ms).
    pub response_timeout_ms: Option<u32>,
    /// ACK timeout (ms).
    pub ack_timeout_ms: Option<u32>,
    /// After a result, keep forwarding `S` receipt lines until this many ms of silence
    /// (`0`/`None` = off).
    pub receipt_drain_ms: Option<u32>,
    /// Retransmission attempts on ACK timeout / NAK.
    pub retry_count: Option<u32>,
    /// Delay between retransmissions (ms).
    pub retry_delay_ms: Option<u32>,
    /// Verbose debug logging.
    pub debug: Option<bool>,
}

/// POS terminal status code (response `s`), `-1..=6`.
pub type PosTerminalStatus = i32;

/// The message of each terminal status code.
pub open spec fn status_message_spec(status: i32) -> Seq<char> {
    if status == 0 {
        "Terminal not configured"@
    } else if status == 1 {
        "Terminal configured, no DLL"@
    } else if status == 2 {
        "Terminal operative (after a DLL)"@
    } else if status == 3 {
        "Terminal not aligned (first DLL requested)"@
    } else if status == 4 {
        "KMPB/KPOS key corrupted (first DLL requested)"@
    } else if status == 5 {
        "DLL solicited by GT pending"@
    } else if status == 6 {
        "Remote SW updated request pending"@
    } else {
        "Unknown"@
    }
}

/// Human-readable message for a [`PosTerminalStatus`].
pub fn pos_terminal_status_message(status: PosTerminalStatus) -> (r: &'static str)
    ensures
        r@ == status_message_spec(status),
{
    match status {
        0 => "Terminal not configured",
        1 => "Terminal configured, no DLL",
        2 => "Terminal operative (after a DLL)",
        3 => "Terminal not aligned (first DLL requested)",
        4 => "KMPB/KPOS key corrupted (first DLL requested)",
        5 => "DLL solicited by GT pending",
        6 => "Remote SW updated request pending",
        _ => "Unknown",
    }
}

/// Terminal status response (`s`).
#[derive(Debug, Clone, PartialEq, Eq)]
pub struct PosStatusResponse {
    /// Terminal identifier echoed back.
    pub terminal_id: String,
    /// Terminal date/time as ISO 8601 (`20YY-MM-DDThh:mm:00`), empty when not reported.
    pub terminal_date_time: String,
    /// Status code (`-1..=6`).
    pub status: PosTerminalStatus,
    /// Firmware / software release string.
    pub software_release: String,
}

/// Payment / extended-payment request.
#[derive(Debug, Clone, PartialEq, Eq)]
pub struct PaymentRequest {
    /// Amount in cents.
    pub amount_cents: i64,
    /// Overrides the configured cash-register id when set.
    pub cash_register_id: Option<String>,
    /// Requested card handling.
    pub payment_type: Option<PaymentCardType>,
    /// Start with the card already inserted in the terminal.
    pub card_already_present: Option<bool>,
    /// Text printed at the end of the receipt (max 128 chars).
    pub receipt_text: Option<String>,
    /// Attach tokenization additional data (`U`) to this transaction.
    pub tokenization: Option<TokenizationRequest>,
}

/// Reversal request (`S`).
#[derive(Debug, Clone, PartialEq, Eq, Default)]
pub struct ReversalRequest {
    /// Overrides the configured cash-register id when set.
    pub cash_register_id: Option<String>,
    /// STAN of the transaction to reverse; `None` reverses the last payment (`"000000"`).
    pub stan: Option<String>,
}

/// Pre-auth request (`p`).
#[derive(Debug, Clone, PartialEq, Eq)]
pub struct PreAuthRequest {
    /// Amount in cents.
    pub amount_cents: i64,
    /// Overrides the configured cash-register id when set.
    pub cash_register_id: Option<String>,
    /// Requested card handling.
    pub payment_type: Option<PaymentCardType>,
    /// Start with the card already inserted.
    pub card_already_present: Option<bool>,
    /// Receipt text.
    pub receipt_text: Option<String>,
    /// Attach tokenization additional data (`U`).
    pub tokenization: Option<TokenizationRequest>,
}

/// Incremental pre-auth request (`i`).
#[derive(Debug, Clone, PartialEq, Eq)]
pub struct IncrementalAuthRequest {
    /// Amount in cents.
    pub amount_cents: i64,
    /// Pre-authorization code from the original pre-auth response.
    pub original_pre_auth_code: String,
    /// Overrides the configured cash-register id when set.
    pub cash_register_id: Option<String>,
    /// Receipt text.
    pub receipt_text: Option<String>,
}

/// Pre-auth closure request (`c`).
#[derive(Debug, Clone, PartialEq, Eq)]
pub struct PreAuthClosureRequest {
    /// Amount in cents.
    pub amount_cents: i64,
    /// Pre-authorization code from the original pre-auth response.
    pub original_pre_auth_code: String,
    /// Overrides the configured cash-register id when set.
    pub cash_register_id: Option<String>,
    /// Receipt text.
    pub receipt_text: Option<String>,
}

/// Card-verification request (`H`).
#[derive(Debug, Clone, PartialEq, Eq, Default)]
pub struct CardVerificationRequest {
    /// Overrides the configured cash-register id when set.
    pub cash_register_id: Option<String>,
    /// Requested card handling.
    pub payment_type: Option<PaymentCardType>,
    /// Attach tokenization additional data (`U`).
    pub tokenization: Option<TokenizationRequest>,
}

/// DCC / currency-exchange block (present only when DCC was applied).
///
/// The exchange rate is kept as the terminal's raw digits (`rate_raw`, 8 digits with 4
/// implied decimals); turning it into a floating-point number is left to the caller.
#[derive(Debug, Clone, PartialEq, Eq, Default)]
pub struct CurrencyExchange {
    /// Whether DCC was applied.
    pub applied: bool,
    /// Exchange rate, raw field text (unscaled).
    pub rate_raw: String,
    /// Currency code.
    pub currency_code: Option<String>,
    /// Converted amount in cents.
    pub amount_cents: Option<i64>,
    /// Decimal precision.
    pub precision: Option<i32>,
}

/// Payment / extended-payment / closure / last-result result.
#[derive(Debug, Clone, PartialEq, Eq, Default)]
pub struct PaymentResult {
    /// Normalized outcome.
    pub outcome: TransactionOutcome,
    /// Raw result code.
    pub result_code: String,
    /// Masked PAN.
    pub pan: Option<String>,
    /// Entry mode.
    pub entry_mode: Option<TransactionEntryMode>,
    /// Authorization code.
    pub auth_code: Option<String>,
    /// Raw host date/time (`DDDHHMM`).
    pub host_date_time: Option<String>,
    /// Card type.
    pub card_type: Option<CardType>,
    /// Acquirer id.
    pub acquirer_id: Option<String>,
    /// STAN.
    pub stan: Option<String>,
    /// Online id.
    pub online_id: Option<String>,
    /// Error description (when declined).
    pub error_description: Option<String>,
    /// DCC block.
    pub currency_exchange: Option<CurrencyExchange>,
}

/// Reversal result.
#[derive(Debug, Clone, PartialEq, Eq, Default)]
pub struct ReversalResult {
    /// Normalized outcome.
    pub outcome: TransactionOutcome,
    /// Raw result code.
    pub result_code: String,
    /// Masked PAN.
    pub pan: Option<String>,
    /// Entry mode.
    pub entry_mode: Option<TransactionEntryMode>,
    /// Raw host date/time.
    pub host_date_time: Option<String>,
    /// Card type.
    pub card_type: Option<CardType>,
    /// Acquirer id.
    pub acquirer_id: Option<String>,
    /// STAN.
    pub stan: Option<String>,
    /// Online id.
    pub online_id: Option<String>,
    /// Action code.
    pub action_code: Option<String>,
    /// Error description.
    pub error_description: Option<String>,
}

/// Pre-auth / incremental result.
#[derive(Debug, Clone, PartialEq, Eq, Default)]
pub struct PreAuthResult {
    /// Normalized outcome.
    pub outcome: TransactionOutcome,
    /// Raw result code.
    pub result_code: String,
    /// Masked PAN.
    pub pan: Option<String>,
    /// Entry mode.
    pub entry_mode: Option<TransactionEntryMode>,
    /// Authorization code.
    pub auth_code: Option<String>,
    /// Pre-authorized amount in cents.
    pub pre_authorized_amount_cents: Option<i64>,
    /// Pre-auth code (for follow-up incremental / closure).
    pub pre_auth_code: Option<String>,
    /// Action code.
    pub action_code: Option<String>,
    /// Raw host date/time.
    pub host_date_time: Option<String>,
    /// Card type.
    pub card_type: Option<CardType>,
    /// Acquirer id.
    pub acquirer_id: Option<String>,
    /// STAN.
    pub stan: Option<String>,
    /// Online id.
    pub online_id: Option<String>,
    /// Error description.
    pub error_description: Option<String>,
}

/// Card-verification result.
#[derive(Debug, Clone, PartialEq, Eq, Default)]
pub struct CardVerificationResult {
    /// Normalized outcome.
    pub outcome: TransactionOutcome,
    /// Raw result code.
    pub result_code: String,
    /// Masked PAN.
    pub pan: Option<String>,
    /// Entry mode.
    pub entry_mode: Option<TransactionEntryMode>,
    /// Authorization code.
    pub auth_code: Option<String>,
    /// Raw host date/time.
    pub host_date_time: Option<String>,
    /// Card type.
    pub card_type: Option<CardType>,
    /// Acquirer id.
    pub acquirer_id: Option<String>,
    /// STAN.
    pub stan: Option<String>,
    /// Online id.
    pub online_id: Option<String>,
    /// Action code.
    pub action_code: Option<String>,
    /// Error description.
    pub error_description: Option<String>,
}

/// Totals result (`T`).
#[derive(Debug, Clone, PartialEq, Eq, Default)]
pub struct TotalsResult {
    /// Normalized outcome.
    pub outcome: TransactionOutcome,
    /// Raw result code.
    pub result_code: String,
    /// POS total in cents.
    pub pos_total_cents: i64,
}

/// Close-session result (`C`).
#[derive(Debug, Clone, PartialEq, Eq, Default)]
pub struct CloseSessionResult {
    /// Normalized outcome.
    pub outcome: TransactionOutcome,
    /// Raw result code.
    pub result_code: String,
    /// POS total in cents.
    pub pos_total_cents: Option<i64>,
    /// Host total in cents.
    pub host_total_cents: Option<i64>,
    /// Action code.
    pub action_code: Option<String>,
    /// Error description.
    pub error_description: Option<String>,
}

/// VAS result (`K`).
#[derive(Debug, Clone, PartialEq, Eq, Default)]
pub struct VasResult {
    /// Response id (`RESPID`; `"0"` = OK).
    pub response_id: String,
    /// Response message (`RESPMSG`).
    pub response_message: String,
    /// Order id when present.
    pub order_id: Option<String>,
    /// Full XML response.
    pub raw_xml: String,
}

/// Progress-update message shown during a procedure (`SOH` frame).
#[derive(Debug, Clone, PartialEq, Eq)]
pub struct ProgressEvent {
    /// Display message.
    pub message: String,
}

/// A single receipt line streamed by the terminal (`S` message).
#[derive(Debug, Clone, PartialEq, Eq)]
pub struct ReceiptLine {
    /// Receipt line text.
    pub text: String,
}

} // verus!
