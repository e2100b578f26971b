use ecr17_protocol::types::{pos_terminal_status_message, PaymentCardType, TokenizationService};

#[test]
fn payment_card_type_digit_mapping() {
    assert_eq!(PaymentCardType::Auto.as_digit(), '0');
    assert_eq!(PaymentCardType::Debit.as_digit(), '1');
    assert_eq!(PaymentCardType::Credit.as_digit(), '2');
    assert_eq!(PaymentCardType::Other.as_digit(), '3');
}

#[test]
fn status_message_lookup() {
    assert_eq!(pos_terminal_status_message(2), "Terminal operative (after a DLL)");
    assert_eq!(pos_terminal_status_message(-1), "Unknown");
    assert_eq!(pos_terminal_status_message(99), "Unknown");
}

#[test]
fn every_status_code_has_a_message() {
    for s in 0..=6 {
        assert_ne!(pos_terminal_status_message(s), "Unknown", "status {s}");
    }
    assert_eq!(pos_terminal_status_message(7), "Unknown");
}

#[test]
fn tokenization_service_recurring_flag() {
    assert!(TokenizationService::Recurring.is_recurring());
    assert!(!TokenizationService::UnscheduledOrOneClick.is_recurring());
}

#[test]
fn default_payment_card_type_is_auto() {
    assert_eq!(PaymentCardType::default(), PaymentCardType::Auto);
}
