use ecr17_protocol::lrc::{LrcMode, BASE};

// An implementation written independently of the library, from the definition of the LRC.
fn expected_lrc(payload: &[u8], mode: LrcMode) -> u8 {
    let mut lrc = 0x7Fu8;
    if mode == LrcMode::Stx || mode == LrcMode::StxNoext {
        lrc ^= 0x02;
    }
    for &b in payload {
        lrc ^= b;
    }
    if mode == LrcMode::Stx || mode == LrcMode::Noext {
        lrc ^= 0x03;
    }
    lrc
}

#[test]
fn scaffold_builds_and_tests_run() {
    assert_eq!(2 + 2, 4);
}

#[test]
fn empty_payload_std_is_base() {
    assert_eq!(LrcMode::Std.compute(&[]), BASE);
}

#[test]
fn empty_payload_stx_folds_stx_and_etx() {
    // 0x7F ^ 0x02 ^ 0x03 == 0x7E
    assert_eq!(LrcMode::Stx.compute(&[]), 0x7E);
}

#[test]
fn known_vector_all_modes() {
    let payload = *b"A"; // 0x41
    assert_eq!(LrcMode::Std.compute(&payload), 0x3E);
    assert_eq!(LrcMode::Stx.compute(&payload), 0x3F);
    assert_eq!(LrcMode::Noext.compute(&payload), 0x3D);
    assert_eq!(LrcMode::StxNoext.compute(&payload), 0x3C);
}

#[test]
fn matches_reference_for_every_mode() {
    let payload = [0x00, 0x7F, 0x55, 0xAA, b'Z', 0x10];
    for mode in [LrcMode::Stx, LrcMode::Std, LrcMode::Noext, LrcMode::StxNoext] {
        assert_eq!(mode.compute(&payload), expected_lrc(&payload, mode));
    }
}

#[test]
fn str_and_bytes_agree() {
    let payload = "12345678P0";
    for mode in [LrcMode::Stx, LrcMode::Std, LrcMode::Noext, LrcMode::StxNoext] {
        assert_eq!(
            mode.compute(payload.as_bytes()),
            mode.compute(&payload.bytes().collect::<Vec<_>>())
        );
    }
}

#[test]
fn default_mode_is_std() {
    assert_eq!(LrcMode::default(), LrcMode::Std);
}

#[test]
fn lrc_of_two_bytes_is_their_xor_with_base() {
    assert_eq!(LrcMode::Std.compute(b"AB"), 0x7F ^ b'A' ^ b'B');
    assert_eq!(LrcMode::Noext.compute(b"AB"), 0x7F ^ b'A' ^ b'B' ^ 0x03);
}
