use ecr17_protocol::error::Ecr17Error;

#[test]
fn error_maps_to_nonempty_string() {
    let s = Ecr17Error::Disconnected.message();
    assert!(!s.is_empty());
    assert!(s.to_lowercase().contains("disconnect"), "{s}");
}

#[test]
fn every_error_has_its_message() {
    assert_eq!(
        Ecr17Error::FieldOverflow { value: "123456789".to_string(), width: 8 }.message(),
        "ECR17: value '123456789' exceeds fixed field width of 8 bytes"
    );
    assert_eq!(Ecr17Error::AckTimeout { attempts: 4 }.message(), "ECR17: no ACK from the terminal after 4 attempt(s)");
    assert_eq!(
        Ecr17Error::InvalidPaymentType { value: '9' }.message(),
        "ECR17: invalid payment type '9' (expected '0'..'3')"
    );
    assert_eq!(Ecr17Error::NegativeAmount.message(), "ECR17: amount must be non-negative");
    assert_eq!(Ecr17Error::Transport { kind: std::io::ErrorKind::ConnectionRefused, message: "refused".to_string() }.message(), "ECR17: transport error: refused");
}
