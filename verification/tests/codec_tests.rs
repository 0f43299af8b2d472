//! The wire encoding, cross-checked against the real hash and serializer the
//! remote system's ecosystem uses.

use escrow_harness::codec::{
    build_instruction_call, encode_instruction_data, method_name, method_selector,
    system_program_address, Command, MakePaymentArgs, StartSubscriptionArgs, WithdrawFundsArgs,
};
use escrow_harness::address::Address;
use borsh::BorshSerialize;

fn sighash(name: &str) -> [u8; 8] {
    let preimage = format!("global:{}", name);
    let digest = solana_sdk::hash::hash(preimage.as_bytes()).to_bytes();
    let mut out = [0u8; 8];
    out.copy_from_slice(&digest[..8]);
    out
}

fn addr(fill: u8) -> Address {
    Address { bytes: [fill; 32] }
}

#[test]
fn selector_matches_sha256_prefix() {
    for name in ["start_subscription", "make_payment", "cancel_subscription", "withdraw_funds"] {
        let sel = method_selector(&name.as_bytes().to_vec());
        assert_eq!(sel.as_slice(), &sighash(name));
    }
}

#[test]
fn method_names_are_the_wire_names() {
    let start = Command::StartSubscription(StartSubscriptionArgs {
        subscription_id: b"premium_content".to_vec(),
        validation_threshold: 1000,
    });
    assert_eq!(method_name(&start), b"start_subscription".to_vec());
    let pay = Command::MakePayment(MakePaymentArgs { amount: 1 });
    assert_eq!(method_name(&pay), b"make_payment".to_vec());
    assert_eq!(method_name(&Command::CancelSubscription), b"cancel_subscription".to_vec());
    let withdraw = Command::WithdrawFunds(WithdrawFundsArgs { validation_data: 2000 });
    assert_eq!(method_name(&withdraw), b"withdraw_funds".to_vec());
}

#[test]
fn start_subscription_payload_matches_borsh() {
    let cmd = Command::StartSubscription(StartSubscriptionArgs {
        subscription_id: b"premium_content".to_vec(),
        validation_threshold: 1000,
    });
    let data = encode_instruction_data(&cmd).unwrap();
    let args = ("premium_content".to_string(), 1000u64);
    let mut expected = sighash("start_subscription").to_vec();
    expected.extend_from_slice(&args.try_to_vec().unwrap());
    assert_eq!(data, expected);
}

#[test]
fn make_payment_payload_matches_borsh() {
    let cmd = Command::MakePayment(MakePaymentArgs { amount: 1_000_000_000 });
    let data = encode_instruction_data(&cmd).unwrap();
    let mut expected = sighash("make_payment").to_vec();
    expected.extend_from_slice(&1_000_000_000u64.try_to_vec().unwrap());
    assert_eq!(data, expected);
}

#[test]
fn cancel_payload_is_selector_only() {
    let data = encode_instruction_data(&Command::CancelSubscription).unwrap();
    assert_eq!(data, sighash("cancel_subscription").to_vec());
}

#[test]
fn withdraw_payload_matches_borsh() {
    let cmd = Command::WithdrawFunds(WithdrawFundsArgs { validation_data: 2000 });
    let data = encode_instruction_data(&cmd).unwrap();
    let mut expected = sighash("withdraw_funds").to_vec();
    expected.extend_from_slice(&2000u64.try_to_vec().unwrap());
    assert_eq!(data, expected);
}

#[test]
fn system_program_address_matches_ledger() {
    let sys = system_program_address();
    assert_eq!(sys.bytes, solana_sdk::system_program::id().to_bytes());
}

#[test]
fn start_call_account_flags() {
    let cmd = Command::StartSubscription(StartSubscriptionArgs {
        subscription_id: b"premium_content".to_vec(),
        validation_threshold: 1000,
    });
    let call = build_instruction_call(&cmd, &addr(9), &addr(1), &addr(2), &addr(7)).unwrap();
    assert_eq!(call.program_id.bytes, [7; 32]);
    assert_eq!(call.accounts.len(), 4);
    let flags: Vec<(u8, bool, bool)> = call
        .accounts
        .iter()
        .map(|a| (a.address.bytes[0], a.is_writable, a.is_signer))
        .collect();
    assert_eq!(
        flags,
        vec![(9, true, false), (1, true, true), (2, false, false), (0, false, false)]
    );
}

#[test]
fn payment_and_cancel_call_account_flags() {
    for cmd in [
        Command::MakePayment(MakePaymentArgs { amount: 5 }),
        Command::CancelSubscription,
    ] {
        let call = build_instruction_call(&cmd, &addr(9), &addr(1), &addr(2), &addr(7)).unwrap();
        let flags: Vec<(u8, bool, bool)> = call
            .accounts
            .iter()
            .map(|a| (a.address.bytes[0], a.is_writable, a.is_signer))
            .collect();
        assert_eq!(
            flags,
            vec![(9, true, false), (1, true, true), (2, true, false), (0, false, false)]
        );
    }
}

#[test]
fn withdraw_call_inverts_signer() {
    let cmd = Command::WithdrawFunds(WithdrawFundsArgs { validation_data: 500 });
    let call = build_instruction_call(&cmd, &addr(9), &addr(1), &addr(2), &addr(7)).unwrap();
    let flags: Vec<(u8, bool, bool)> = call
        .accounts
        .iter()
        .map(|a| (a.address.bytes[0], a.is_writable, a.is_signer))
        .collect();
    assert_eq!(
        flags,
        vec![(9, true, false), (1, true, false), (2, true, true), (0, false, false)]
    );
}
