//! The crate's error type.
use vstd::prelude::*;
use crate::text::{decimal, decimal_string, char_to_string};

verus! {

/// The kind of an I/O failure, carried as it is.
#[verifier::external_type_specification]
#[verifier::external_body]
pub struct ExIoErrorKind(std::io::ErrorKind);

/// `io::ErrorKind` is `Copy`: its `clone` returns the same kind.
pub assume_specification[ <std::io::ErrorKind as Clone>::clone ](kind: &std::io::ErrorKind) -> (r: std::io::ErrorKind)
    ensures
        r == *kind,
;

/// Errors produced while building or parsing ECR17 messages and while driving an exchange.
#[allow(inconsistent_fields)]
#[derive(Debug, Clone, PartialEq, Eq)]
pub enum Ecr17Error {
    /// A value is longer than its fixed-width field.
    FieldOverflow {
        /// The offending value.
        value: String,
        /// The field width it overflowed.
        width: usize,
    },
    /// A monetary amount was negative.
    NegativeAmount,
    /// The payment-type digit was not one of `'0'..='3'`.
    InvalidPaymentType {
        /// The offending character.
        value: char,
    },
    /// A VAS request payload exceeded the 1024-byte limit.
    VasTooLong,
    /// The additional-data TAG content was empty or longer than 100 bytes.
    TagContentInvalid,
    /// The tokenization contract code was empty or longer than 18 bytes.
    ContractCodeInvalid,
    /// The transport dropped during an exchange.
    Disconnected,
    /// No `ACK` arrived after all transmission attempts.
    AckTimeout {
        /// Number of times the request was sent.
        attempts: u32,
    },
    /// The terminal kept answering `NAK` until the attempts ran out.
    Nak {
        /// Number of times the request was sent.
        attempts: u32,
    },
    /// No application response arrived in time.
    ResponseTimeout,
    /// The transport failed (connect / read / write).
    Transport {
        /// The I/O error kind.
        kind: std::io::ErrorKind,
        /// Human-readable detail.
        message: String,
    },
}

/// The plain-value form of an [`Ecr17Error`].
pub enum ErrorView {
    FieldOverflow(Seq<char>, nat),
    NegativeAmount,
    InvalidPaymentType(char),
    VasTooLong,
    TagContentInvalid,
    ContractCodeInvalid,
    Disconnected,
    AckTimeout(u32),
    Nak(u32),
    ResponseTimeout,
    Transport(std::io::ErrorKind, Seq<char>),
}

impl View for Ecr17Error {
    type V = ErrorView;

    open spec fn view(&self) -> ErrorView {
        match self {
            Ecr17Error::FieldOverflow { value, width } => ErrorView::FieldOverflow(value@, *width as nat),
            Ecr17Error::NegativeAmount => ErrorView::NegativeAmount,
            Ecr17Error::InvalidPaymentType { value } => ErrorView::InvalidPaymentType(*value),
            Ecr17Error::VasTooLong => ErrorView::VasTooLong,
            Ecr17Error::TagContentInvalid => ErrorView::TagContentInvalid,
            Ecr17Error::ContractCodeInvalid => ErrorView::ContractCodeInvalid,
            Ecr17Error::Disconnected => ErrorView::Disconnected,
            Ecr17Error::AckTimeout { attempts } => ErrorView::AckTimeout(*attempts),
            Ecr17Error::Nak { attempts } => ErrorView::Nak(*attempts),
            Ecr17Error::ResponseTimeout => ErrorView::ResponseTimeout,
            Ecr17Error::Transport { kind, message } => ErrorView::Transport(*kind, message@),
        }
    }
}

/// The characters of the decimal form of `n`.
pub open spec fn decimal_chars(n: nat) -> Seq<char> {
    vstd::utf8::decode_utf8(decimal(n))
}

/// The human-readable message of an error.
pub open spec fn message_spec(e: ErrorView) -> Seq<char> {
    match e {
        ErrorView::FieldOverflow(value, width) => "ECR17: value '"@ + value
            + "' exceeds fixed field width of "@ + decimal_chars(width) + " bytes"@,
        ErrorView::NegativeAmount => "ECR17: amount must be non-negative"@,
        ErrorView::InvalidPaymentType(c) => "ECR17: invalid payment type '"@ + seq![c]
            + "' (expected '0'..'3')"@,
        ErrorView::VasTooLong => "ECR17: VAS request exceeds 1024 bytes"@,
        ErrorView::TagContentInvalid => "ECR17: additional TAG content must be 1..=100 chars"@,
        ErrorView::ContractCodeInvalid => "ECR17: tokenization contract code must be 1..=18 chars"@,
        ErrorView::Disconnected => "ECR17: transport disconnected"@,
        ErrorView::AckTimeout(n) => "ECR17: no ACK from the terminal after "@ + decimal_chars(n as nat)
            + " attempt(s)"@,
        ErrorView::Nak(n) => "ECR17: request refused (NAK) by the terminal after "@
            + decimal_chars(n as nat) + " attempt(s)"@,
        ErrorView::ResponseTimeout => "ECR17: timed out waiting for the terminal response"@,
        ErrorView::Transport(_, message) => "ECR17: transport error: "@ + message,
    }
}

impl Ecr17Error {
    /// The human-readable message of this error.
    pub fn message(&self) -> (r: String)
        ensures
            r@ == message_spec(self@),
    {
        match self {
            Ecr17Error::FieldOverflow { value, width } => {
                let mut s = String::from_str("ECR17: value '");
                s.append(value.as_str());
                s.append("' exceeds fixed field width of ");
                let w = decimal_string(*width as u64);
                s.append(w.as_str());
                s.append(" bytes");
                s
            },
            Ecr17Error::NegativeAmount => String::from_str("ECR17: amount must be non-negative"),
            Ecr17Error::InvalidPaymentType { value } => {
                let mut s = String::from_str("ECR17: invalid payment type '");
                let c = char_to_string(*value);
                s.append(c.as_str());
                s.append("' (expected '0'..'3')");
                s
            },
            Ecr17Error::VasTooLong => String::from_str("ECR17: VAS request exceeds 1024 bytes"),
            Ecr17Error::TagContentInvalid => String::from_str(
                "ECR17: additional TAG content must be 1..=100 chars",
            ),
            Ecr17Error::ContractCodeInvalid => String::from_str(
                "ECR17: tokenization contract code must be 1..=18 chars",
            ),
            Ecr17Error::Disconnected => String::from_str("ECR17: transport disconnected"),
            Ecr17Error::AckTimeout { attempts } => {
                let mut s = String::from_str("ECR17: no ACK from the terminal after ");
                let n = decimal_string(*attempts as u64);
                s.append(n.as_str());
                s.append(" attempt(s)");
                s
            },
            Ecr17Error::Nak { attempts } => {
                let mut s = String::from_str("ECR17: request refused (NAK) by the terminal after ");
                let n = decimal_string(*attempts as u64);
                s.append(n.as_str());
                s.append(" attempt(s)");
                s
            },
            Ecr17Error::ResponseTimeout => String::from_str(
                "ECR17: timed out waiting for the terminal response",
            ),
            Ecr17Error::Transport { message, .. } => {
                let mut s = String::from_str("ECR17: transport error: ");
                s.append(message.as_str());
                s
            },
        }
    }
}

} // verus!
