use block_samples::status::{push_decimal, text_with_number, Status, StatusCode};

#[test]
fn decimal_of_small_and_large_numbers() {
    assert_eq!(text_with_number("", 0), "0");
    assert_eq!(text_with_number("", 7), "7");
    assert_eq!(text_with_number("", 10), "10");
    assert_eq!(text_with_number("block#", 1234567890), "block#1234567890");
    assert_eq!(text_with_number("", u64::MAX), "18446744073709551615");
}

#[test]
fn push_decimal_appends() {
    let mut text = String::from("a");
    push_decimal(&mut text, 305);
    push_decimal(&mut text, 0);
    assert_eq!(text, "a3050");
}

#[test]
fn status_carries_code_and_context() {
    let status = StatusCode::InvalidParentHash.with_context(String::from("why"));
    assert_eq!(status.code(), StatusCode::InvalidParentHash);
    assert_eq!(status.context, Some(String::from("why")));
    assert!(!status.is_ok());
    let status = StatusCode::PeerIsNotOnProcess.into_status();
    assert_eq!(status.code(), StatusCode::PeerIsNotOnProcess);
    assert_eq!(status.context, None);
    assert!(Status::ok().is_ok());
    assert_eq!(Status::ok().code(), StatusCode::OK);
}

#[test]
fn bytes_in_hexadecimal() {
    let mut text = String::from("hash: ");
    block_samples::status::push_hex(&mut text, &[0x00, 0x0f, 0xa0, 0xff, 0x5c]);
    assert_eq!(text, "hash: 0x000fa0ff5c");
    let mut text = String::new();
    block_samples::status::push_hex(&mut text, &[]);
    assert_eq!(text, "0x");
}

#[test]
fn numbers_in_hexadecimal_have_no_leading_zeros() {
    let cases: [[u64; 4]; 8] = [
        [0, 0, 0, 0],
        [1, 0, 0, 0],
        [0xf, 0, 0, 0],
        [0x10, 0, 0, 0],
        [u64::MAX, 0, 0, 0],
        [0, 1, 0, 0],
        [0x12, 0, 0xabc, 0],
        [u64::MAX, 0, 1, 0x8000_0000_0000_0000],
    ];
    for limbs in cases.iter() {
        let mut text = String::new();
        block_samples::status::push_number_hex(&mut text, &block_samples::u256::U256 { limbs: *limbs });
        assert_eq!(text, format!("{:#x}", ckb_types::U256(*limbs)));
    }
    let mut text = String::from("=");
    block_samples::status::push_number_hex(&mut text, &block_samples::u256::U256 { limbs: [0, 1, 0, 0] });
    assert_eq!(text, "=0x10000000000000000");
}

#[test]
fn epoch_in_words() {
    let mut text = String::new();
    block_samples::status::push_epoch(&mut text, &block_samples::epoch::EpochNumberWithFraction::new(5, 2, 100));
    assert_eq!(text, "5(2/100)");
    assert_eq!(text, format!("{:#}", ckb_types::core::EpochNumberWithFraction::new(5, 2, 100)));
}
