//! ECR17 application-message builders: the bytes that go between `STX` and `ETX`.
//!
//! Every field is fixed-width and validated: a value that overflows its field is refused
//! with [`Ecr17Error::FieldOverflow`], so a malformed frame is never produced.
use vstd::prelude::*;
use vstd::utf8::valid_utf8;
use crate::error::{Ecr17Error, ErrorView, decimal_chars};
use crate::text::{
    bytes_of, repeat, zeros, decimal, decimal_string, lemma_ascii_valid_utf8, lemma_decimal_len_bound, pow10,
    push_repeat, push_str, push_ascii, char_to_string, string_of_bytes,
};

verus! {

broadcast use vstd::utf8::encode_utf8_valid_utf8;

// ---------------------------------------------------------------------------
// Field-level specifications
// ---------------------------------------------------------------------------

/// `value` fits in a field of `size` bytes.
pub open spec fn fits(value: Seq<char>, size: nat) -> bool {
    bytes_of(value).len() <= size
}

/// `b` right-aligned in a field of `size` bytes, padded on the left with `ch`.
pub open spec fn pad_left_raw(b: Seq<u8>, size: nat, ch: u8) -> Seq<u8> {
    repeat(ch, (size - b.len()) as nat) + b
}

/// The string `value` right-aligned in a field of `size` bytes, left-padded with `ch`.
pub open spec fn pad_left(value: Seq<char>, size: nat, ch: u8) -> Seq<u8> {
    pad_left_raw(bytes_of(value), size, ch)
}

/// The string `value` left-aligned in a field of `size` bytes, right-padded with `ch`.
pub open spec fn pad_right(value: Seq<char>, size: nat, ch: u8) -> Seq<u8> {
    bytes_of(value) + repeat(ch, (size - bytes_of(value).len()) as nat)
}

/// The flag byte `'1'` / `'0'`.
pub open spec fn flag(on: bool) -> u8 {
    if on { 0x31u8 } else { 0x30u8 }
}

/// A payment-type digit `'0'..='3'`.
pub open spec fn is_payment_type(c: char) -> bool {
    '0' <= c && c <= '3'
}

/// The byte of a payment-type digit.
pub open spec fn payment_type_byte(c: char) -> u8 {
    (c as u32) as u8
}

/// Why the 8-byte amount field cannot hold `amount`, if it cannot.
pub open spec fn amount_error(amount: int) -> Option<ErrorView> {
    if amount < 0 {
        Some(ErrorView::NegativeAmount)
    } else if decimal(amount as nat).len() > 8 {
        Some(ErrorView::FieldOverflow(decimal_chars(amount as nat), 8))
    } else {
        None
    }
}

/// The 8-byte, right-aligned, zero-filled amount field.
pub open spec fn amount_field(amount: int) -> Seq<u8> {
    pad_left_raw(decimal(amount as nat), 8, 0x30u8)
}

/// The overflow error of `value` in a field of `size` bytes, if it does not fit.
pub open spec fn overflow(value: Seq<char>, size: nat) -> Option<ErrorView> {
    if fits(value, size) { None } else { Some(ErrorView::FieldOverflow(value, size)) }
}

/// The first of two possible errors.
pub open spec fn or_else(first: Option<ErrorView>, second: Option<ErrorView>) -> Option<ErrorView> {
    if first is Some { first } else { second }
}

/// A builder result agrees with its specification: `Ok` exactly when no check fails, with
/// the given bytes; otherwise the first failing check's error.
pub open spec fn built(r: Result<String, Ecr17Error>, err: Option<ErrorView>, bytes: Seq<u8>) -> bool {
    match r {
        Ok(m) => err is None && bytes_of(m@) == bytes,
        Err(e) => err == Some(e@),
    }
}

// ---------------------------------------------------------------------------
// Message-level specifications
// ---------------------------------------------------------------------------

/// Header shared by every request: terminal id (8), reserved `'0'`, message code.
pub open spec fn header(tid: Seq<char>, code: u8) -> Seq<u8> {
    pad_left(tid, 8, 0x30u8) + seq![0x30u8, code]
}

/// Checks of the payment family (`P`, `X`, `p`), in the order they are made.
pub open spec fn payment_like_error(
    tid: Seq<char>,
    crid: Seq<char>,
    amount: int,
    payment_type: char,
    text: Seq<char>,
) -> Option<ErrorView> {
    if !is_payment_type(payment_type) {
        Some(ErrorView::InvalidPaymentType(payment_type))
    } else {
        or_else(overflow(tid, 8), or_else(overflow(crid, 8), or_else(amount_error(amount), overflow(text, 128))))
    }
}

/// Bytes of a payment-family message (167 bytes).
pub open spec fn payment_like_bytes(
    code: u8,
    tid: Seq<char>,
    crid: Seq<char>,
    amount: int,
    payment_type: char,
    card_present: bool,
    additional: bool,
    text: Seq<char>,
) -> Seq<u8> {
    header(tid, code) + pad_left(crid, 8, 0x30u8) + seq![flag(additional)] + zeros(2)
        + seq![flag(card_present), payment_type_byte(payment_type)] + amount_field(amount)
        + pad_left(text, 128, 0x20u8) + zeros(8)
}

/// Checks of the pre-auth follow-ups (`i`, `c`), in order.
pub open spec fn follow_up_error(
    tid: Seq<char>,
    crid: Seq<char>,
    amount: int,
    pre_auth_code: Seq<char>,
    text: Seq<char>,
) -> Option<ErrorView> {
    or_else(
        overflow(tid, 8),
        or_else(
            overflow(crid, 8),
            or_else(amount_error(amount), or_else(overflow(text, 128), overflow(pre_auth_code, 9))),
        ),
    )
}

/// Bytes of a pre-auth follow-up message (176 bytes).
pub open spec fn follow_up_bytes(
    code: u8,
    tid: Seq<char>,
    crid: Seq<char>,
    amount: int,
    pre_auth_code: Seq<char>,
    additional: bool,
    text: Seq<char>,
) -> Seq<u8> {
    header(tid, code) + pad_left(crid, 8, 0x30u8) + seq![flag(additional)] + zeros(4)
        + amount_field(amount) + pad_left(text, 128, 0x20u8) + pad_left(pre_auth_code, 9, 0x30u8)
        + zeros(8)
}

/// Checks of the commands made of the terminal id and the cash register id.
pub open spec fn ids_error(tid: Seq<char>, crid: Seq<char>) -> Option<ErrorView> {
    or_else(overflow(tid, 8), overflow(crid, 8))
}

/// Bytes of a session command `C` / `T` (26 bytes).
pub open spec fn session_command_bytes(code: u8, tid: Seq<char>, crid: Seq<char>, additional: bool) -> Seq<u8> {
    header(tid, code) + pad_left(crid, 8, 0x30u8) + seq![flag(additional)] + zeros(7)
}

/// Checks of the card verification `H`.
pub open spec fn card_verification_error(tid: Seq<char>, crid: Seq<char>, payment_type: char) -> Option<ErrorView> {
    if !is_payment_type(payment_type) {
        Some(ErrorView::InvalidPaymentType(payment_type))
    } else {
        ids_error(tid, crid)
    }
}

/// Bytes of a card verification `H` (39 bytes).
pub open spec fn card_verification_bytes(tid: Seq<char>, crid: Seq<char>, payment_type: char, additional: bool) -> Seq<u8> {
    header(tid, 0x48u8) + pad_left(crid, 8, 0x30u8) + seq![flag(additional)] + zeros(2)
        + seq![0x30u8, payment_type_byte(payment_type)] + zeros(16)
}

/// Bytes of a send-last-result `G` (22 bytes).
pub open spec fn send_last_result_bytes(tid: Seq<char>, crid: Seq<char>, additional: bool) -> Seq<u8> {
    header(tid, 0x47u8) + pad_left(crid, 8, 0x30u8) + seq![flag(additional)] + zeros(3)
}

/// Bytes of an enable/disable ECR printing `E` (11 bytes).
pub open spec fn enable_ecr_print_bytes(tid: Seq<char>, enabled: bool) -> Seq<u8> {
    header(tid, 0x45u8) + seq![flag(enabled)]
}

/// Bytes of a reprint `R`.
pub open spec fn reprint_bytes(tid: Seq<char>, to_ecr: bool, ticket_type: char) -> Seq<u8> {
    header(tid, 0x52u8) + seq![flag(to_ecr)] + bytes_of(seq![ticket_type]) + zeros(10)
}

/// Bytes of a status `s` (10 bytes).
pub open spec fn status_bytes(tid: Seq<char>) -> Seq<u8> {
    header(tid, 0x73u8)
}

/// Checks of the reversal `S`, in order.
pub open spec fn reversal_error(tid: Seq<char>, crid: Seq<char>, stan: Seq<char>) -> Option<ErrorView> {
    or_else(overflow(tid, 8), or_else(overflow(crid, 8), overflow(stan, 6)))
}

/// Bytes of a reversal `S` (26 bytes).
pub open spec fn reversal_bytes(tid: Seq<char>, crid: Seq<char>, stan: Seq<char>) -> Seq<u8> {
    header(tid, 0x53u8) + pad_left(crid, 8, 0x30u8) + pad_left(stan, 6, 0x30u8) + zeros(2)
}

/// Checks of the VAS request `K`, in order.
pub open spec fn vas_error(tid: Seq<char>, ecr_id: Seq<char>, xml: Seq<char>) -> Option<ErrorView> {
    if bytes_of(xml).len() > 1024 {
        Some(ErrorView::VasTooLong)
    } else {
        ids_error(tid, ecr_id)
    }
}

/// Bytes of a VAS request `K`: header, ECR id, reserved, 4-digit length, XML.
pub open spec fn vas_bytes(tid: Seq<char>, ecr_id: Seq<char>, xml: Seq<char>) -> Seq<u8> {
    header(tid, 0x4Bu8) + pad_left(ecr_id, 8, 0x30u8) + zeros(4)
        + pad_left_raw(decimal(bytes_of(xml).len()), 4, 0x30u8) + bytes_of(xml)
}

/// Checks of the additional-data message `U`, in order.
pub open spec fn additional_tags_error(
    tid: Seq<char>,
    tag_content: Seq<char>,
    iso_field: Seq<char>,
    tag_number: Seq<char>,
) -> Option<ErrorView> {
    if bytes_of(tag_content).len() == 0 || bytes_of(tag_content).len() > 100 {
        Some(ErrorView::TagContentInvalid)
    } else {
        or_else(overflow(tid, 8), or_else(overflow(iso_field, 2), overflow(tag_number, 8)))
    }
}

/// Bytes of the additional-data message `U`.
pub open spec fn additional_tags_bytes(
    tid: Seq<char>,
    tag_content: Seq<char>,
    iso_field: Seq<char>,
    tag_number: Seq<char>,
) -> Seq<u8> {
    header(tid, 0x55u8) + zeros(6) + pad_left(iso_field, 2, 0x30u8) + pad_right(tag_number, 8, 0x20u8)
        + zeros(10) + bytes_of(tag_content) + seq![0x1Bu8]
}

/// The tokenization TAG content: `"0REC"`/`"0COF"`, `"0TRK"`, the contract, `"|0FNZ03"`.
pub open spec fn tokenization_tag_bytes(recurring: bool, contract: Seq<char>) -> Seq<u8> {
    (if recurring { seq![0x30u8, 0x52u8, 0x45u8, 0x43u8] } else { seq![0x30u8, 0x43u8, 0x4Fu8, 0x46u8] })
        + seq![0x30u8, 0x54u8, 0x52u8, 0x4Bu8] + bytes_of(contract)
        + seq![0x7Cu8, 0x30u8, 0x46u8, 0x4Eu8, 0x5Au8, 0x30u8, 0x33u8]
}

// ---------------------------------------------------------------------------
// Field builders
// ---------------------------------------------------------------------------

/// An empty message buffer.
fn new_message() -> (m: Vec<u8>)
    ensures
        m@ == Seq::<u8>::empty(),
        valid_utf8(m@),
{
    proof {
        lemma_ascii_valid_utf8(Seq::<u8>::empty());
    }
    Vec::new()
}

/// Appends `value` right-aligned in a `size`-byte field padded with `ch`.
fn push_left_pad(m: &mut Vec<u8>, value: &str, size: usize, ch: u8) -> (r: Result<(), Ecr17Error>)
    requires
        ch < 0x80,
        valid_utf8(old(m)@),
    ensures
        valid_utf8(final(m)@),
        match r {
            Ok(_) => fits(value@, size as nat) && final(m)@ == old(m)@ + pad_left(value@, size as nat, ch),
            Err(e) => overflow(value@, size as nat) == Some(e@),
        },
{
    let n = value.as_bytes().len();
    if n > size {
        return Err(Ecr17Error::FieldOverflow { value: String::from_str(value), width: size });
    }
    push_repeat(m, ch, size - n);
    push_str(m, value);
    proof {
        assert(m@ =~= old(m)@ + pad_left(value@, size as nat, ch));
    }
    Ok(())
}

/// Appends `value` left-aligned in a `size`-byte field padded with `ch`.
fn push_right_pad(m: &mut Vec<u8>, value: &str, size: usize, ch: u8) -> (r: Result<(), Ecr17Error>)
    requires
        ch < 0x80,
        valid_utf8(old(m)@),
    ensures
        valid_utf8(final(m)@),
        match r {
            Ok(_) => fits(value@, size as nat) && final(m)@ == old(m)@ + pad_right(value@, size as nat, ch),
            Err(e) => overflow(value@, size as nat) == Some(e@),
        },
{
    let n = value.as_bytes().len();
    if n > size {
        return Err(Ecr17Error::FieldOverflow { value: String::from_str(value), width: size });
    }
    push_str(m, value);
    push_repeat(m, ch, size - n);
    proof {
        assert(m@ =~= old(m)@ + pad_right(value@, size as nat, ch));
    }
    Ok(())
}

/// Appends the 8-byte amount field.
fn push_amount(m: &mut Vec<u8>, amount_cents: i64) -> (r: Result<(), Ecr17Error>)
    requires
        valid_utf8(old(m)@),
    ensures
        valid_utf8(final(m)@),
        match r {
            Ok(_) => amount_error(amount_cents as int) is None
                && final(m)@ == old(m)@ + amount_field(amount_cents as int),
            Err(e) => amount_error(amount_cents as int) == Some(e@),
        },
{
    if amount_cents < 0 {
        return Err(Ecr17Error::NegativeAmount);
    }
    let digits = decimal_string(amount_cents as u64);
    let r = push_left_pad(m, digits.as_str(), 8, 0x30);
    proof {
        assert(amount_field(amount_cents as int) == pad_left(digits@, 8, 0x30u8));
    }
    r
}

/// Checks a payment-type digit.
fn payment_type_digit(payment_type: char) -> (r: Result<u8, Ecr17Error>)
    ensures
        match r {
            Ok(b) => is_payment_type(payment_type) && b == payment_type_byte(payment_type) && b < 0x80,
            Err(e) => !is_payment_type(payment_type)
                && e@ == ErrorView::InvalidPaymentType(payment_type),
        },
{
    match payment_type {
        '0' => Ok(0x30),
        '1' => Ok(0x31),
        '2' => Ok(0x32),
        '3' => Ok(0x33),
        _ => Err(Ecr17Error::InvalidPaymentType { value: payment_type }),
    }
}

fn flag_byte(on: bool) -> (b: u8)
    ensures
        b == flag(on),
        b < 0x80,
{
    if on { 0x31 } else { 0x30 }
}

/// Appends the common header: terminal id, reserved `'0'`, message code.
fn push_header(m: &mut Vec<u8>, terminal_id: &str, code: u8) -> (r: Result<(), Ecr17Error>)
    requires
        code < 0x80,
        valid_utf8(old(m)@),
    ensures
        valid_utf8(final(m)@),
        match r {
            Ok(_) => fits(terminal_id@, 8) && final(m)@ == old(m)@ + header(terminal_id@, code),
            Err(e) => overflow(terminal_id@, 8) == Some(e@),
        },
{
    push_left_pad(m, terminal_id, 8, 0x30)?;
    push_ascii(m, 0x30);
    push_ascii(m, code);
    proof {
        assert(m@ =~= old(m)@ + header(terminal_id@, code));
    }
    Ok(())
}

// ---------------------------------------------------------------------------
// Message builders
// ---------------------------------------------------------------------------

/// Shared 167-byte payment-family layout (codes `P`, `X`, `p`).
fn build_payment_like(
    code: u8,
    terminal_id: &str,
    cash_register_id: &str,
    amount_cents: i64,
    payment_type: char,
    card_already_present: bool,
    with_additional_data: bool,
    receipt_text: &str,
) -> (r: Result<String, Ecr17Error>)
    requires
        code < 0x80,
    ensures
        built(
            r,
            payment_like_error(terminal_id@, cash_register_id@, amount_cents as int, payment_type, receipt_text@),
            payment_like_bytes(
                code,
                terminal_id@,
                cash_register_id@,
                amount_cents as int,
                payment_type,
                card_already_present,
                with_additional_data,
                receipt_text@,
            ),
        ),
        r matches Ok(m) ==> bytes_of(m@).len() == 167,
{
    let pt = payment_type_digit(payment_type)?;
    let mut m = new_message();
    push_header(&mut m, terminal_id, code)?;
    push_left_pad(&mut m, cash_register_id, 8, 0x30)?;
    push_ascii(&mut m, flag_byte(with_additional_data));
    push_repeat(&mut m, 0x30, 2);
    push_ascii(&mut m, flag_byte(card_already_present));
    push_ascii(&mut m, pt);
    push_amount(&mut m, amount_cents)?;
    push_left_pad(&mut m, receipt_text, 128, 0x20)?;
    push_repeat(&mut m, 0x30, 8);
    proof {
        assert(m@ =~= payment_like_bytes(
            code,
            terminal_id@,
            cash_register_id@,
            amount_cents as int,
            payment_type,
            card_already_present,
            with_additional_data,
            receipt_text@,
        ));
    }
    Ok(string_of_bytes(m))
}

/// Payment `'P'` (167 bytes): terminal id, `'0'`, `'P'`, cash register id, additional-data
/// flag, `"00"`, card-present flag, payment type, 8-digit amount, 128-byte right-aligned
/// receipt text, `"00000000"`.
pub fn build_payment(
    terminal_id: &str,
    cash_register_id: &str,
    amount_cents: i64,
    payment_type: char,
    card_already_present: bool,
    with_additional_data: bool,
    receipt_text: &str,
) -> (r: Result<String, Ecr17Error>)
    ensures
        built(
            r,
            payment_like_error(terminal_id@, cash_register_id@, amount_cents as int, payment_type, receipt_text@),
            payment_like_bytes(
                0x50u8,
                terminal_id@,
                cash_register_id@,
                amount_cents as int,
                payment_type,
                card_already_present,
                with_additional_data,
                receipt_text@,
            ),
        ),
        r matches Ok(m) ==> bytes_of(m@).len() == 167,
{
    build_payment_like(
        0x50,
        terminal_id,
        cash_register_id,
        amount_cents,
        payment_type,
        card_already_present,
        with_additional_data,
        receipt_text,
    )
}

/// Extended payment `'X'` (167 bytes, payment layout).
pub fn build_extended_payment(
    terminal_id: &str,
    cash_register_id: &str,
    amount_cents: i64,
    payment_type: char,
    card_already_present: bool,
    with_additional_data: bool,
    receipt_text: &str,
) -> (r: Result<String, Ecr17Error>)
    ensures
        built(
            r,
            payment_like_error(terminal_id@, cash_register_id@, amount_cents as int, payment_type, receipt_text@),
            payment_like_bytes(
                0x58u8,
                terminal_id@,
                cash_register_id@,
                amount_cents as int,
                payment_type,
                card_already_present,
                with_additional_data,
                receipt_text@,
            ),
        ),
        r matches Ok(m) ==> bytes_of(m@).len() == 167,
{
    build_payment_like(
        0x58,
        terminal_id,
        cash_register_id,
        amount_cents,
        payment_type,
        card_already_present,
        with_additional_data,
        receipt_text,
    )
}

/// Pre-auth `'p'` (167 bytes, payment layout).
pub fn build_pre_auth(
    terminal_id: &str,
    cash_register_id: &str,
    amount_cents: i64,
    payment_type: char,
    card_already_present: bool,
    with_additional_data: bool,
    receipt_text: &str,
) -> (r: Result<String, Ecr17Error>)
    ensures
        built(
            r,
            payment_like_error(terminal_id@, cash_register_id@, amount_cents as int, payment_type, receipt_text@),
            payment_like_bytes(
                0x70u8,
                terminal_id@,
                cash_register_id@,
                amount_cents as int,
                payment_type,
                card_already_present,
                with_additional_data,
                receipt_text@,
            ),
        ),
        r matches Ok(m) ==> bytes_of(m@).len() == 167,
{
    build_payment_like(
        0x70,
        terminal_id,
        cash_register_id,
        amount_cents,
        payment_type,
        card_already_present,
        with_additional_data,
        receipt_text,
    )
}

/// Shared 176-byte pre-auth follow-up layout (codes `i`, `c`).
fn build_pre_auth_follow_up(
    code: u8,
    terminal_id: &str,
    cash_register_id: &str,
    amount_cents: i64,
    original_pre_auth_code: &str,
    with_additional_data: bool,
    receipt_text: &str,
) -> (r: Result<String, Ecr17Error>)
    requires
        code < 0x80,
    ensures
        built(
            r,
            follow_up_error(terminal_id@, cash_register_id@, amount_cents as int, original_pre_auth_code@, receipt_text@),
            follow_up_bytes(
                code,
                terminal_id@,
                cash_register_id@,
                amount_cents as int,
                original_pre_auth_code@,
                with_additional_data,
                receipt_text@,
            ),
        ),
        r matches Ok(m) ==> bytes_of(m@).len() == 176,
{
    let mut m = new_message();
    push_header(&mut m, terminal_id, code)?;
    push_left_pad(&mut m, cash_register_id, 8, 0x30)?;
    push_ascii(&mut m, flag_byte(with_additional_data));
    push_repeat(&mut m, 0x30, 4);
    push_amount(&mut m, amount_cents)?;
    push_left_pad(&mut m, receipt_text, 128, 0x20)?;
    push_left_pad(&mut m, original_pre_auth_code, 9, 0x30)?;
    push_repeat(&mut m, 0x30, 8);
    proof {
        assert(m@ =~= follow_up_bytes(
            code,
            terminal_id@,
            cash_register_id@,
            amount_cents as int,
            original_pre_auth_code@,
            with_additional_data,
            receipt_text@,
        ));
    }
    Ok(string_of_bytes(m))
}

/// Incremental pre-auth `'i'` (176 bytes): header, cash register id, flag, `"0000"`,
/// amount, receipt text, 9-byte original pre-auth code, `"00000000"`.
pub fn build_incremental(
    terminal_id: &str,
    cash_register_id: &str,
    amount_cents: i64,
    original_pre_auth_code: &str,
    with_additional_data: bool,
    receipt_text: &str,
) -> (r: Result<String, Ecr17Error>)
    ensures
        built(
            r,
            follow_up_error(terminal_id@, cash_register_id@, amount_cents as int, original_pre_auth_code@, receipt_text@),
            follow_up_bytes(
                0x69u8,
                terminal_id@,
                cash_register_id@,
                amount_cents as int,
                original_pre_auth_code@,
                with_additional_data,
                receipt_text@,
            ),
        ),
        r matches Ok(m) ==> bytes_of(m@).len() == 176,
{
    build_pre_auth_follow_up(
        0x69,
        terminal_id,
        cash_register_id,
        amount_cents,
        original_pre_auth_code,
        with_additional_data,
        receipt_text,
    )
}

/// Pre-auth closure `'c'` (176 bytes, follow-up layout).
pub fn build_pre_auth_closure(
    terminal_id: &str,
    cash_register_id: &str,
    amount_cents: i64,
    original_pre_auth_code: &str,
    with_additional_data: bool,
    receipt_text: &str,
) -> (r: Result<String, Ecr17Error>)
    ensures
        built(
            r,
            follow_up_error(terminal_id@, cash_register_id@, amount_cents as int, original_pre_auth_code@, receipt_text@),
            follow_up_bytes(
                0x63u8,
                terminal_id@,
                cash_register_id@,
                amount_cents as int,
                original_pre_auth_code@,
                with_additional_data,
                receipt_text@,
            ),
        ),
        r matches Ok(m) ==> bytes_of(m@).len() == 176,
{
    build_pre_auth_follow_up(
        0x63,
        terminal_id,
        cash_register_id,
        amount_cents,
        original_pre_auth_code,
        with_additional_data,
        receipt_text,
    )
}

/// Card verification `'H'` (39 bytes).
pub fn build_card_verification(
    terminal_id: &str,
    cash_register_id: &str,
    payment_type: char,
    with_additional_data: bool,
) -> (r: Result<String, Ecr17Error>)
    ensures
        built(
            r,
            card_verification_error(terminal_id@, cash_register_id@, payment_type),
            card_verification_bytes(terminal_id@, cash_register_id@, payment_type, with_additional_data),
        ),
        r matches Ok(m) ==> bytes_of(m@).len() == 39,
{
    let pt = payment_type_digit(payment_type)?;
    let mut m = new_message();
    push_header(&mut m, terminal_id, 0x48)?;
    push_left_pad(&mut m, cash_register_id, 8, 0x30)?;
    push_ascii(&mut m, flag_byte(with_additional_data));
    push_repeat(&mut m, 0x30, 3);
    push_ascii(&mut m, pt);
    push_repeat(&mut m, 0x30, 16);
    proof {
        assert(m@ =~= card_verification_bytes(
            terminal_id@,
            cash_register_id@,
            payment_type,
            with_additional_data,
        ));
    }
    Ok(string_of_bytes(m))
}

/// Shared 26-byte session command layout (codes `C`, `T`).
fn build_session_command(
    code: u8,
    terminal_id: &str,
    cash_register_id: &str,
    with_additional_data: bool,
) -> (r: Result<String, Ecr17Error>)
    requires
        code < 0x80,
    ensures
        built(
            r,
            ids_error(terminal_id@, cash_register_id@),
            session_command_bytes(code, terminal_id@, cash_register_id@, with_additional_data),
        ),
        r matches Ok(m) ==> bytes_of(m@).len() == 26,
{
    let mut m = new_message();
    push_header(&mut m, terminal_id, code)?;
    push_left_pad(&mut m, cash_register_id, 8, 0x30)?;
    push_ascii(&mut m, flag_byte(with_additional_data));
    push_repeat(&mut m, 0x30, 7);
    proof {
        assert(m@ =~= session_command_bytes(code, terminal_id@, cash_register_id@, with_additional_data));
    }
    Ok(string_of_bytes(m))
}

/// Close session `'C'` (26 bytes).
pub fn build_close_session(
    terminal_id: &str,
    cash_register_id: &str,
    with_additional_data: bool,
) -> (r: Result<String, Ecr17Error>)
    ensures
        built(
            r,
            ids_error(terminal_id@, cash_register_id@),
            session_command_bytes(0x43u8, terminal_id@, cash_register_id@, with_additional_data),
        ),
        r matches Ok(m) ==> bytes_of(m@).len() == 26,
{
    build_session_command(0x43, terminal_id, cash_register_id, with_additional_data)
}

/// Totals `'T'` (26 bytes).
pub fn build_totals(
    terminal_id: &str,
    cash_register_id: &str,
    with_additional_data: bool,
) -> (r: Result<String, Ecr17Error>)
    ensures
        built(
            r,
            ids_error(terminal_id@, cash_register_id@),
            session_command_bytes(0x54u8, terminal_id@, cash_register_id@, with_additional_data),
        ),
        r matches Ok(m) ==> bytes_of(m@).len() == 26,
{
    build_session_command(0x54, terminal_id, cash_register_id, with_additional_data)
}

/// Send last result `'G'` (22 bytes).
pub fn build_send_last_result(
    terminal_id: &str,
    cash_register_id: &str,
    with_additional_data: bool,
) -> (r: Result<String, Ecr17Error>)
    ensures
        built(
            r,
            ids_error(terminal_id@, cash_register_id@),
            send_last_result_bytes(terminal_id@, cash_register_id@, with_additional_data),
        ),
        r matches Ok(m) ==> bytes_of(m@).len() == 22,
{
    let mut m = new_message();
    push_header(&mut m, terminal_id, 0x47)?;
    push_left_pad(&mut m, cash_register_id, 8, 0x30)?;
    push_ascii(&mut m, flag_byte(with_additional_data));
    push_repeat(&mut m, 0x30, 3);
    proof {
        assert(m@ =~= send_last_result_bytes(terminal_id@, cash_register_id@, with_additional_data));
    }
    Ok(string_of_bytes(m))
}

/// Enable/disable ECR printing `'E'` (11 bytes).
pub fn build_enable_ecr_print(terminal_id: &str, enabled: bool) -> (r: Result<String, Ecr17Error>)
    ensures
        built(r, overflow(terminal_id@, 8), enable_ecr_print_bytes(terminal_id@, enabled)),
        r matches Ok(m) ==> bytes_of(m@).len() == 11,
{
    let mut m = new_message();
    push_header(&mut m, terminal_id, 0x45)?;
    push_ascii(&mut m, flag_byte(enabled));
    proof {
        assert(m@ =~= enable_ecr_print_bytes(terminal_id@, enabled));
    }
    Ok(string_of_bytes(m))
}

/// Reprint ticket `'R'`: header, to-ECR flag, ticket type, `"0000000000"` (22 bytes for
/// an ASCII ticket type).
pub fn build_reprint(terminal_id: &str, to_ecr: bool, ticket_type: char) -> (r: Result<String, Ecr17Error>)
    ensures
        built(r, overflow(terminal_id@, 8), reprint_bytes(terminal_id@, to_ecr, ticket_type)),
        r matches Ok(m) ==> bytes_of(m@).len() == 21 + bytes_of(seq![ticket_type]).len(),
{
    let mut m = new_message();
    push_header(&mut m, terminal_id, 0x52)?;
    push_ascii(&mut m, flag_byte(to_ecr));
    let t = char_to_string(ticket_type);
    push_str(&mut m, t.as_str());
    push_repeat(&mut m, 0x30, 10);
    proof {
        assert(m@ =~= reprint_bytes(terminal_id@, to_ecr, ticket_type));
    }
    Ok(string_of_bytes(m))
}

/// Status `'s'` (10 bytes; lowercase code).
pub fn build_status(terminal_id: &str) -> (r: Result<String, Ecr17Error>)
    ensures
        built(r, overflow(terminal_id@, 8), status_bytes(terminal_id@)),
        r matches Ok(m) ==> bytes_of(m@).len() == 10,
{
    let mut m = new_message();
    push_header(&mut m, terminal_id, 0x73)?;
    Ok(string_of_bytes(m))
}

/// Reversal `'S'` (26 bytes); a STAN of `"000000"` reverses the last payment unchecked.
pub fn build_reversal(terminal_id: &str, cash_register_id: &str, stan: &str) -> (r: Result<String, Ecr17Error>)
    ensures
        built(
            r,
            reversal_error(terminal_id@, cash_register_id@, stan@),
            reversal_bytes(terminal_id@, cash_register_id@, stan@),
        ),
        r matches Ok(m) ==> bytes_of(m@).len() == 26,
{
    let mut m = new_message();
    push_header(&mut m, terminal_id, 0x53)?;
    push_left_pad(&mut m, cash_register_id, 8, 0x30)?;
    push_left_pad(&mut m, stan, 6, 0x30)?;
    push_repeat(&mut m, 0x30, 2);
    proof {
        assert(m@ =~= reversal_bytes(terminal_id@, cash_register_id@, stan@));
    }
    Ok(string_of_bytes(m))
}

/// VAS `'K'`: header, ECR id, `"0000"`, 4-digit XML length, XML (at most 1024 bytes).
pub fn build_vas(terminal_id: &str, ecr_id: &str, xml_request: &str) -> (r: Result<String, Ecr17Error>)
    ensures
        built(
            r,
            vas_error(terminal_id@, ecr_id@, xml_request@),
            vas_bytes(terminal_id@, ecr_id@, xml_request@),
        ),
        r matches Ok(m) ==> bytes_of(m@).len() == 26 + bytes_of(xml_request@).len(),
{
    let xml = xml_request.as_bytes();
    if xml.len() > 1024 {
        return Err(Ecr17Error::VasTooLong);
    }
    let mut m = new_message();
    push_header(&mut m, terminal_id, 0x4B)?;
    push_left_pad(&mut m, ecr_id, 8, 0x30)?;
    push_repeat(&mut m, 0x30, 4);
    let len_digits = decimal_string(xml.len() as u64);
    proof {
        assert(pow10(4) == 10000) by {
            reveal_with_fuel(pow10, 5);
        }
        lemma_decimal_len_bound(xml@.len(), 4);
    }
    let r = push_left_pad(&mut m, len_digits.as_str(), 4, 0x30);
    proof {
        assert(r is Ok);
    }
    push_str(&mut m, xml_request);
    proof {
        assert(m@ =~= vas_bytes(terminal_id@, ecr_id@, xml_request@));
    }
    Ok(string_of_bytes(m))
}

/// Additional data for GT / tokenization `'U'`: header, `"000000"`, 2-byte ISO field,
/// 8-byte left-justified TAG number, `"0000000000"`, the TAG content (1..=100 bytes) and
/// the end-of-field byte `0x1B`.
pub fn build_additional_tags(
    terminal_id: &str,
    tag_content: &str,
    iso_field: &str,
    tag_number: &str,
) -> (r: Result<String, Ecr17Error>)
    ensures
        built(
            r,
            additional_tags_error(terminal_id@, tag_content@, iso_field@, tag_number@),
            additional_tags_bytes(terminal_id@, tag_content@, iso_field@, tag_number@),
        ),
        r matches Ok(m) ==> bytes_of(m@).len() == 37 + bytes_of(tag_content@).len(),
{
    let content = tag_content.as_bytes();
    if content.len() == 0 || content.len() > 100 {
        return Err(Ecr17Error::TagContentInvalid);
    }
    let mut m = new_message();
    push_header(&mut m, terminal_id, 0x55)?;
    push_repeat(&mut m, 0x30, 6);
    push_left_pad(&mut m, iso_field, 2, 0x30)?;
    push_right_pad(&mut m, tag_number, 8, 0x20)?;
    push_repeat(&mut m, 0x30, 10);
    push_str(&mut m, tag_content);
    push_ascii(&mut m, 0x1B);
    proof {
        assert(m@ =~= additional_tags_bytes(terminal_id@, tag_content@, iso_field@, tag_number@));
    }
    Ok(string_of_bytes(m))
}

/// Formats the tokenization TAG content: `"0COF0TRK<contract>|0FNZ03"` (unscheduled /
/// one-click) or `"0REC0TRK<contract>|0FNZ03"` (recurring); the contract code must be
/// 1..=18 bytes.
pub fn format_tokenization_tag(recurring: bool, contract_code: &str) -> (r: Result<String, Ecr17Error>)
    ensures
        built(
            r,
            if bytes_of(contract_code@).len() == 0 || bytes_of(contract_code@).len() > 18 {
                Some(ErrorView::ContractCodeInvalid)
            } else {
                None
            },
            tokenization_tag_bytes(recurring, contract_code@),
        ),
{
    let code = contract_code.as_bytes();
    if code.len() == 0 || code.len() > 18 {
        return Err(Ecr17Error::ContractCodeInvalid);
    }
    let mut m = new_message();
    push_ascii(&mut m, 0x30);
    if recurring {
        push_ascii(&mut m, 0x52);
        push_ascii(&mut m, 0x45);
        push_ascii(&mut m, 0x43);
    } else {
        push_ascii(&mut m, 0x43);
        push_ascii(&mut m, 0x4F);
        push_ascii(&mut m, 0x46);
    }
    push_ascii(&mut m, 0x30);
    push_ascii(&mut m, 0x54);
    push_ascii(&mut m, 0x52);
    push_ascii(&mut m, 0x4B);
    push_str(&mut m, contract_code);
    push_ascii(&mut m, 0x7C);
    push_ascii(&mut m, 0x30);
    push_ascii(&mut m, 0x46);
    push_ascii(&mut m, 0x4E);
    push_ascii(&mut m, 0x5A);
    push_ascii(&mut m, 0x30);
    push_ascii(&mut m, 0x33);
    proof {
        assert(m@ =~= tokenization_tag_bytes(recurring, contract_code@));
    }
    Ok(string_of_bytes(m))
}

// ---------------------------------------------------------------------------
// Layout laws
// ---------------------------------------------------------------------------

/// In a pre-auth follow-up (`i` incremental, `c` closure) that passes its checks, the
/// 176-byte message holds the receipt text right-aligned in the 128-byte field at bytes
/// 31..159 (leading spaces, the text at the tail, as in a payment), then the original
/// pre-auth code right-aligned and zero-filled in bytes 159..168, then 8 zeros.
pub proof fn lemma_follow_up_text_right_aligned(
    code: u8,
    tid: Seq<char>,
    crid: Seq<char>,
    amount: int,
    pre_auth_code: Seq<char>,
    additional: bool,
    text: Seq<char>,
)
    requires
        follow_up_error(tid, crid, amount, pre_auth_code, text) is None,
    ensures
        ({
            let m = follow_up_bytes(code, tid, crid, amount, pre_auth_code, additional, text);
            &&& m.len() == 176
            &&& m.subrange(31, 159) == crate::text::spaces((128 - bytes_of(text).len()) as nat) + bytes_of(text)
            &&& m.subrange(159, 168) == zeros((9 - bytes_of(pre_auth_code).len()) as nat) + bytes_of(pre_auth_code)
            &&& m.subrange(168, 176) == zeros(8)
        }),
{
    let head = header(tid, code) + pad_left(crid, 8, 0x30u8) + seq![flag(additional)] + zeros(4)
        + amount_field(amount);
    assert(head.len() == 31);
    let t = pad_left(text, 128, 0x20u8);
    let c = pad_left(pre_auth_code, 9, 0x30u8);
    let m = follow_up_bytes(code, tid, crid, amount, pre_auth_code, additional, text);
    assert(m =~= head + t + c + zeros(8));
    assert(m.subrange(31, 159) =~= t);
    assert(m.subrange(159, 168) =~= c);
    assert(m.subrange(168, 176) =~= zeros(8));
}

/// A card verification (`H`) that passes its checks is 39 bytes: terminal id, `'0'`, `'H'`,
/// the cash register id, then at byte 18 the additional-data flag (`'1'` exactly when
/// additional data follows), `"00"`, at byte 21 `'0'` (standard verification) whatever the
/// flag, at byte 22 the payment-type digit, and 16 zeros.
pub proof fn lemma_card_verification_layout(tid: Seq<char>, crid: Seq<char>, payment_type: char, additional: bool)
    requires
        card_verification_error(tid, crid, payment_type) is None,
    ensures
        ({
            let m = card_verification_bytes(tid, crid, payment_type, additional);
            &&& m.len() == 39
            &&& m[8] == 0x30u8
            &&& m[9] == 0x48u8
            &&& m.subrange(10, 18) == zeros((8 - bytes_of(crid).len()) as nat) + bytes_of(crid)
            &&& m[18] == (if additional { 0x31u8 } else { 0x30u8 })
            &&& m[19] == 0x30u8
            &&& m[20] == 0x30u8
            &&& m[21] == 0x30u8
            &&& m[22] as u32 == payment_type as u32
            &&& m.subrange(23, 39) == zeros(16)
        }),
{
    let h = header(tid, 0x48u8);
    let c = pad_left(crid, 8, 0x30u8);
    let m = card_verification_bytes(tid, crid, payment_type, additional);
    assert(h.len() == 10);
    assert(m =~= h + c + seq![flag(additional)] + zeros(2) + seq![0x30u8, payment_type_byte(payment_type)] + zeros(16));
    assert(m[8] == h[8]);
    assert(m[9] == h[9]);
    assert(m.subrange(10, 18) =~= c);
    assert(m.subrange(23, 39) =~= zeros(16));
    let v = payment_type as u32;
    assert(0x30 <= v <= 0x33);
    assert((v as u8) as u32 == v) by (bit_vector)
        requires
            0x30 <= v <= 0x33,
    ;
}

} // verus!
