//! Decoding of fetched raw account bytes, cross-checked against the real
//! serializer the remote program's ecosystem uses.

use escrow_harness::view::{
    decode_escrow_account, escrow_record_encoded_len, escrow_record_tag_bytes, DecodeError,
};
use borsh::BorshSerialize;

fn record_tag() -> Vec<u8> {
    solana_sdk::hash::hash(b"account:EscrowAccount").to_bytes()[..8].to_vec()
}

fn sample_record() -> Vec<u8> {
    let fields = (
        [1u8; 32],
        [2u8; 32],
        "premium_content".to_string(),
        5u8,
        5_000_000_000u64,
        true,
        1000u64,
    );
    let mut data = record_tag();
    data.extend_from_slice(&fields.try_to_vec().unwrap());
    data
}

#[test]
fn record_tag_matches_sha256_prefix() {
    assert_eq!(escrow_record_tag_bytes(), record_tag());
}

#[test]
fn decodes_a_borsh_record() {
    let acc = decode_escrow_account(&sample_record()).unwrap();
    assert_eq!(acc.seller.bytes, [1u8; 32]);
    assert_eq!(acc.buyer.bytes, [2u8; 32]);
    assert_eq!(acc.subscription_id, b"premium_content".to_vec());
    assert_eq!(acc.payment_count, 5);
    assert_eq!(acc.total_amount, 5_000_000_000);
    assert!(acc.is_active);
    assert_eq!(acc.validation_threshold, 1000);
}

#[test]
fn tolerates_trailing_padding() {
    let mut data = sample_record();
    data.extend_from_slice(&[0u8; 64]);
    let acc = decode_escrow_account(&data).unwrap();
    assert_eq!(acc.payment_count, 5);
    assert_eq!(acc.total_amount, 5_000_000_000);
}

#[test]
fn decodes_an_inactive_record() {
    let fields = ([9u8; 32], [8u8; 32], String::new(), 0u8, 0u64, false, 42u64);
    let mut data = record_tag();
    data.extend_from_slice(&fields.try_to_vec().unwrap());
    let acc = decode_escrow_account(&data).unwrap();
    assert!(!acc.is_active);
    assert_eq!(acc.subscription_id, Vec::<u8>::new());
    assert_eq!(acc.validation_threshold, 42);
}

#[test]
fn rejects_wrong_record_tag() {
    let mut data = sample_record();
    data[0] ^= 0xff;
    assert!(matches!(decode_escrow_account(&data), Err(DecodeError::WrongRecordTag)));
}

#[test]
fn rejects_short_data() {
    assert!(matches!(decode_escrow_account(&Vec::new()), Err(DecodeError::TooShort)));
    let mut data = sample_record();
    data.truncate(90);
    assert!(matches!(decode_escrow_account(&data), Err(DecodeError::TooShort)));
    let mut truncated_id = sample_record();
    truncated_id.truncate(100);
    assert!(matches!(decode_escrow_account(&truncated_id), Err(DecodeError::TooShort)));
}

#[test]
fn rejects_invalid_boolean_byte() {
    let mut data = sample_record();
    let flag_at = data.len() - 9;
    assert_eq!(data[flag_at], 1);
    data[flag_at] = 2;
    assert!(matches!(decode_escrow_account(&data), Err(DecodeError::InvalidBooleanByte)));
}

#[test]
fn encoded_len_matches_borsh() {
    let default_fields = ([0u8; 32], [0u8; 32], String::new(), 0u8, 0u64, false, 0u64);
    let expected = default_fields.try_to_vec().unwrap().len();
    assert_eq!(escrow_record_encoded_len(0), expected);
    assert_eq!(escrow_record_encoded_len(0), 86);
    assert_eq!(escrow_record_encoded_len(15), 101);
}
