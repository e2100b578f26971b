use ecr17_protocol::error::Ecr17Error;
use ecr17_protocol::protocol::{
    build_additional_tags, build_card_verification, build_close_session, build_enable_ecr_print,
    build_extended_payment, build_incremental, build_payment, build_pre_auth, build_pre_auth_closure,
    build_reprint, build_reversal, build_send_last_result, build_status, build_totals, build_vas,
    format_tokenization_tag,
};

const T: &str = "12345678"; // terminal id
const C: &str = "87654321"; // cash register id

#[test]
fn status_message_layout() {
    let m = build_status("42").unwrap();
    assert_eq!(m.len(), 10);
    assert_eq!(&m[0..8], "00000042"); // terminal id, left-padded
    assert_eq!(m.as_bytes()[8], b'0'); // reserved
    assert_eq!(m.as_bytes()[9], b's'); // lowercase message code per spec
}

#[test]
fn status_message_keeps_full_width_id() {
    assert_eq!(build_status("12345678").unwrap(), "123456780s");
}

#[test]
fn payment_message_is_167_bytes() {
    assert_eq!(
        build_payment("1", "2", 650, '0', false, false, "")
            .unwrap()
            .len(),
        167
    );
}

#[test]
fn payment_message_field_layout() {
    let m = build_payment("12345678", "87654321", 650, '0', false, false, "").unwrap();
    assert_eq!(m.len(), 167);
    assert_eq!(&m[0..8], "12345678"); // terminal id
    assert_eq!(m.as_bytes()[8], b'0'); // reserved
    assert_eq!(m.as_bytes()[9], b'P'); // message code
    assert_eq!(&m[10..18], "87654321"); // cash register id
    assert_eq!(m.as_bytes()[18], b'0'); // presence of additional data
    assert_eq!(&m[19..21], "00"); // reserved
    assert_eq!(m.as_bytes()[21], b'0'); // start-with-card
    assert_eq!(m.as_bytes()[22], b'0'); // payment type
    assert_eq!(&m[23..31], "00000650"); // amount, right aligned
    assert_eq!(&m[31..159], &" ".repeat(128)); // text field
    assert_eq!(&m[159..167], "00000000"); // trailing reserved
}

#[test]
fn payment_message_amount_max_fits() {
    let m = build_payment("1", "2", 99_999_999, '0', false, false, "").unwrap();
    assert_eq!(&m[23..31], "99999999");
}

#[test]
fn payment_rejects_negative_amount() {
    assert_eq!(
        build_payment("1", "2", -1, '0', false, false, ""),
        Err(Ecr17Error::NegativeAmount)
    );
}

#[test]
fn payment_rejects_amount_overflowing_field() {
    // 9 digits does not fit the 8-byte amount field.
    assert!(matches!(
        build_payment("1", "2", 100_000_000, '0', false, false, ""),
        Err(Ecr17Error::FieldOverflow { .. })
    ));
}

#[test]
fn payment_rejects_oversized_terminal_id() {
    assert!(matches!(
        build_payment("123456789", "2", 650, '0', false, false, ""),
        Err(Ecr17Error::FieldOverflow { .. })
    ));
}

#[test]
fn status_rejects_oversized_terminal_id() {
    assert!(matches!(
        build_status("123456789"),
        Err(Ecr17Error::FieldOverflow { .. })
    ));
}

#[test]
fn reversal_message_layout() {
    let m = build_reversal("12345678", "87654321", "000123").unwrap();
    assert_eq!(m.len(), 26);
    assert_eq!(&m[0..8], "12345678");
    assert_eq!(m.as_bytes()[8], b'0');
    assert_eq!(m.as_bytes()[9], b'S');
    assert_eq!(&m[10..18], "87654321");
    assert_eq!(&m[18..24], "000123");
    assert_eq!(m.as_bytes()[24], b'0');
    assert_eq!(m.as_bytes()[25], b'0');
}

#[test]
fn reversal_default_stan_is_no_check() {
    let m = build_reversal("12345678", "87654321", "000000").unwrap();
    assert_eq!(&m[18..24], "000000");
}

#[test]
fn reversal_rejects_oversized_stan() {
    assert!(matches!(
        build_reversal("1", "2", "1234567"),
        Err(Ecr17Error::FieldOverflow { .. })
    ));
}


#[test]
fn extended_payment_layout_and_flags() {
    let m = build_extended_payment(T, C, 650, '2', true, true, "ABC").unwrap();
    assert_eq!(m.len(), 167);
    assert_eq!(&m[0..8], T);
    assert_eq!(m.as_bytes()[8], b'0');
    assert_eq!(m.as_bytes()[9], b'X');
    assert_eq!(&m[10..18], C);
    assert_eq!(m.as_bytes()[18], b'1'); // withAdditionalData
    assert_eq!(&m[19..21], "00");
    assert_eq!(m.as_bytes()[21], b'1'); // cardAlreadyPresent
    assert_eq!(m.as_bytes()[22], b'2'); // payment type
    assert_eq!(&m[23..31], "00000650"); // amount
    assert_eq!(&m[31..156], &" ".repeat(125)); // text left-padding
    assert_eq!(&m[156..159], "ABC"); // text right-aligned
    assert_eq!(&m[159..167], "00000000");
}

// Locks the intentional RIGHT-alignment of the 128-byte receipt-text field (leading
// spaces, text at the tail) — the terminal expects it so; do not left-align it.
#[test]
fn payment_receipt_text_is_right_aligned() {
    let m = build_payment(T, C, 650, '0', false, false, "ABC").unwrap();
    assert_eq!(&m[31..156], &" ".repeat(125)); // 125 leading spaces
    assert_eq!(&m[156..159], "ABC"); // text right-aligned at the tail
}

#[test]
fn pre_auth_uses_code_lower_p() {
    let m = build_pre_auth(T, C, 1000, '0', false, false, "").unwrap();
    assert_eq!(m.len(), 167);
    assert_eq!(m.as_bytes()[9], b'p');
    assert_eq!(&m[23..31], "00001000");
}

#[test]
fn payment_defaults_match_basic_layout() {
    let m = build_payment(T, C, 650, '0', false, false, "").unwrap();
    assert_eq!(m.len(), 167);
    assert_eq!(m.as_bytes()[9], b'P');
    assert_eq!(m.as_bytes()[18], b'0'); // no additional data by default
    assert_eq!(m.as_bytes()[21], b'0'); // card not present by default
    assert_eq!(m.as_bytes()[22], b'0'); // auto payment type by default
    assert_eq!(&m[31..159], &" ".repeat(128));
}

#[test]
fn incremental_layout() {
    let m = build_incremental(T, C, 1000, "123456789", false, "").unwrap();
    assert_eq!(m.len(), 176);
    assert_eq!(m.as_bytes()[9], b'i');
    assert_eq!(&m[19..23], "0000");
    assert_eq!(&m[23..31], "00001000");
    assert_eq!(&m[159..168], "123456789"); // original pre-auth code
    assert_eq!(&m[168..176], "00000000");
}

#[test]
fn pre_auth_closure_layout() {
    let m = build_pre_auth_closure(T, C, 500, "000000042", false, "").unwrap();
    assert_eq!(m.len(), 176);
    assert_eq!(m.as_bytes()[9], b'c');
    assert_eq!(&m[159..168], "000000042");
}

#[test]
fn card_verification_layout() {
    let m = build_card_verification(T, C, '1', false).unwrap();
    assert_eq!(m.len(), 39);
    assert_eq!(m.as_bytes()[9], b'H');
    assert_eq!(&m[10..18], C);
    assert_eq!(m.as_bytes()[18], b'0'); // no additional data
    assert_eq!(&m[19..21], "00");
    assert_eq!(m.as_bytes()[21], b'0'); // standard verification
    assert_eq!(m.as_bytes()[22], b'1'); // payment type
    assert_eq!(&m[23..39], &"0".repeat(16));
}

#[test]
fn close_session_layout() {
    let m = build_close_session(T, C, false).unwrap();
    assert_eq!(m.len(), 26);
    assert_eq!(m.as_bytes()[9], b'C');
    assert_eq!(&m[10..18], C);
    assert_eq!(m.as_bytes()[18], b'0');
    assert_eq!(&m[19..26], &"0".repeat(7));
}

#[test]
fn totals_layout() {
    let m = build_totals(T, C, false).unwrap();
    assert_eq!(m.len(), 26);
    assert_eq!(m.as_bytes()[9], b'T');
}

#[test]
fn send_last_result_layout() {
    let m = build_send_last_result(T, C, false).unwrap();
    assert_eq!(m.len(), 22);
    assert_eq!(m.as_bytes()[9], b'G');
    assert_eq!(&m[19..22], "000");
}

#[test]
fn enable_ecr_print_layout() {
    assert_eq!(build_enable_ecr_print(T, true).unwrap(), "123456780E1");
    assert_eq!(build_enable_ecr_print(T, false).unwrap(), "123456780E0");
}

#[test]
fn reprint_layout() {
    let m = build_reprint(T, true, '0').unwrap();
    assert_eq!(m.len(), 22);
    assert_eq!(m.as_bytes()[9], b'R');
    assert_eq!(m.as_bytes()[10], b'1'); // send to ECR
    assert_eq!(m.as_bytes()[11], b'0'); // ticket type default
    assert_eq!(&m[12..22], &"0".repeat(10));
}

#[test]
fn vas_layout_and_length_prefix() {
    let m = build_vas(T, C, "<x/>").unwrap();
    assert_eq!(m.len(), 30);
    assert_eq!(m.as_bytes()[9], b'K');
    assert_eq!(&m[10..18], C);
    assert_eq!(&m[18..21], "000");
    assert_eq!(m.as_bytes()[21], b'0');
    assert_eq!(&m[22..26], "0004"); // length of "<x/>"
    assert_eq!(&m[26..], "<x/>");
}

#[test]
fn vas_rejects_oversized_request() {
    assert_eq!(
        build_vas(T, C, &"x".repeat(1025)),
        Err(Ecr17Error::VasTooLong)
    );
}

#[test]
fn additional_tags_layout() {
    let content = "0COF0TRK123|0FNZ03"; // 18 chars
    let m = build_additional_tags(T, content, "62", "DF8D01").unwrap();
    assert_eq!(m.len(), 36 + content.len() + 1);
    assert_eq!(m.as_bytes()[9], b'U');
    assert_eq!(&m[10..16], "000000");
    assert_eq!(&m[16..18], "62");
    assert_eq!(&m[18..26], "DF8D01  "); // left-justified, blank-filled
    assert_eq!(m.as_bytes()[26], b'0');
    assert_eq!(&m[27..31], "0000");
    assert_eq!(&m[31..36], "00000");
    assert_eq!(&m[36..36 + content.len()], content);
    assert_eq!(m.as_bytes()[m.len() - 1], 0x1B);
}

#[test]
fn additional_tags_rejects_bad_content() {
    assert_eq!(
        build_additional_tags(T, "", "62", "DF8D01"),
        Err(Ecr17Error::TagContentInvalid)
    );
    assert_eq!(
        build_additional_tags(T, &"x".repeat(101), "62", "DF8D01"),
        Err(Ecr17Error::TagContentInvalid)
    );
}

#[test]
fn tokenization_tag_format() {
    assert_eq!(
        format_tokenization_tag(false, "1666354841608").unwrap(),
        "0COF0TRK1666354841608|0FNZ03"
    );
    assert_eq!(
        format_tokenization_tag(true, "ABC").unwrap(),
        "0REC0TRKABC|0FNZ03"
    );
    assert_eq!(
        format_tokenization_tag(false, ""),
        Err(Ecr17Error::ContractCodeInvalid)
    );
    assert_eq!(
        format_tokenization_tag(false, &"x".repeat(19)),
        Err(Ecr17Error::ContractCodeInvalid)
    );
}

#[test]
fn incremental_rejects_oversized_pre_auth_code() {
    assert!(matches!(
        build_incremental(T, C, 100, "1234567890", false, ""), // 10 digits > 9-byte field
        Err(Ecr17Error::FieldOverflow { .. })
    ));
}

#[test]
fn builders_reject_invalid_payment_type() {
    assert_eq!(
        build_payment(T, C, 100, '9', false, false, ""),
        Err(Ecr17Error::InvalidPaymentType { value: '9' })
    );
    assert_eq!(
        build_card_verification(T, C, 'x', false),
        Err(Ecr17Error::InvalidPaymentType { value: 'x' })
    );
    // All valid digits are accepted.
    for d in ['0', '1', '2', '3'] {
        assert!(build_payment(T, C, 100, d, false, false, "").is_ok());
        assert!(build_card_verification(T, C, d, false).is_ok());
    }
}

#[test]
fn pre_auth_rejects_negative_amount() {
    assert_eq!(
        build_pre_auth(T, C, -1, '0', false, false, ""),
        Err(Ecr17Error::NegativeAmount)
    );
}

#[test]
fn status_message_of_short_id_is_zero_padded() {
    assert_eq!(build_status("").unwrap(), "000000000s");
}

#[test]
fn payment_rejects_oversized_receipt_text() {
    let text = "x".repeat(129);
    assert!(matches!(
        build_payment(T, C, 1, '0', false, false, &text),
        Err(Ecr17Error::FieldOverflow { width: 128, .. })
    ));
    assert!(build_payment(T, C, 1, '0', false, false, &"x".repeat(128)).is_ok());
}

#[test]
fn payment_reports_the_first_failing_field() {
    // An invalid payment type is reported before an oversized terminal id.
    assert_eq!(
        build_payment("123456789", C, -5, '7', false, false, ""),
        Err(Ecr17Error::InvalidPaymentType { value: '7' })
    );
    // Then the terminal id, before the amount.
    assert_eq!(
        build_payment("123456789", C, -5, '0', false, false, ""),
        Err(Ecr17Error::FieldOverflow { value: "123456789".to_string(), width: 8 })
    );
}

#[test]
fn amount_overflow_reports_the_amount_digits() {
    assert_eq!(
        build_payment(T, C, 100_000_000, '0', false, false, ""),
        Err(Ecr17Error::FieldOverflow { value: "100000000".to_string(), width: 8 })
    );
}

#[test]
fn vas_accepts_the_largest_request() {
    let m = build_vas(T, C, &"x".repeat(1024)).unwrap();
    assert_eq!(&m[22..26], "1024");
    assert_eq!(m.len(), 26 + 1024);
}

#[test]
fn reversal_pads_a_short_stan() {
    let m = build_reversal(T, C, "42").unwrap();
    assert_eq!(&m[18..24], "000042");
}

#[test]
fn additional_tags_accepts_the_largest_content() {
    let m = build_additional_tags(T, &"x".repeat(100), "62", "DF8D01").unwrap();
    assert_eq!(m.len(), 37 + 100);
}

#[test]
fn tokenization_tag_accepts_the_longest_contract() {
    let code = "y".repeat(18);
    assert_eq!(
        format_tokenization_tag(true, &code).unwrap(),
        format!("0REC0TRK{code}|0FNZ03")
    );
}
