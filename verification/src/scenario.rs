//! The fixed, hand-authored scenario sequences the harness runs against one
//! evolving remote account: the main timeline that ends in a rejected,
//! refunded withdrawal, and the fresh-account timeline that ends in an
//! accepted one. Later scenarios assume the exact post-state of earlier
//! ones, so order matters.

use vstd::prelude::*;
use vstd::slice::slice_to_vec;
use crate::address::Address;
use crate::model::Operation;

verus! {

/// Whether an operation starts a subscription with exactly these inputs.
pub open spec fn op_is_start(
    op: Operation,
    buyer: Seq<u8>,
    seller: Seq<u8>,
    subscription_id: Seq<u8>,
    threshold: u64,
) -> bool {
    op matches Operation::Start { buyer: b, seller: s, subscription_id: i, validation_threshold: t }
        && b@ == buyer && s@ == seller && i@ == subscription_id && t == threshold
}

/// Whether an operation is an escrowed payment of exactly this amount.
pub open spec fn op_is_escrowed(op: Operation, amount: u64) -> bool {
    op matches Operation::EscrowedPayment { amount: a } && a == amount
}

/// Whether an operation is a direct payment of exactly this amount.
pub open spec fn op_is_direct(op: Operation, amount: u64) -> bool {
    op matches Operation::DirectPayment { amount: a } && a == amount
}

/// Whether an operation withdraws with exactly this validation data.
pub open spec fn op_is_withdraw(op: Operation, validation_data: u64) -> bool {
    op matches Operation::Withdraw { validation_data: v } && v == validation_data
}

/// The main timeline, run against one derived account: start, five escrowed
/// payments, two direct payments, cancellation, then a withdrawal whose
/// validation data the caller chooses above the threshold so that the
/// escrowed total is refunded to the buyer.
pub fn standard_script(
    buyer: &Address,
    seller: &Address,
    subscription_id: &Vec<u8>,
    threshold: u64,
    payment_amount: u64,
    withdrawal_validation_data: u64,
) -> (r: Vec<Operation>)
    ensures
        r@.len() == 10,
        op_is_start(r@[0], buyer@, seller@, subscription_id@, threshold),
        op_is_escrowed(r@[1], payment_amount),
        op_is_escrowed(r@[2], payment_amount),
        op_is_escrowed(r@[3], payment_amount),
        op_is_escrowed(r@[4], payment_amount),
        op_is_escrowed(r@[5], payment_amount),
        op_is_direct(r@[6], payment_amount),
        op_is_direct(r@[7], payment_amount),
        r@[8] is Cancel,
        op_is_withdraw(r@[9], withdrawal_validation_data),
{
    let mut script: Vec<Operation> = Vec::new();
    script.push(
        Operation::Start {
            buyer: *buyer,
            seller: *seller,
            subscription_id: slice_to_vec(subscription_id.as_slice()),
            validation_threshold: threshold,
        },
    );
    script.push(Operation::EscrowedPayment { amount: payment_amount });
    script.push(Operation::EscrowedPayment { amount: payment_amount });
    script.push(Operation::EscrowedPayment { amount: payment_amount });
    script.push(Operation::EscrowedPayment { amount: payment_amount });
    script.push(Operation::EscrowedPayment { amount: payment_amount });
    script.push(Operation::DirectPayment { amount: payment_amount });
    script.push(Operation::DirectPayment { amount: payment_amount });
    script.push(Operation::Cancel);
    script.push(Operation::Withdraw { validation_data: withdrawal_validation_data });
    script
}

/// The fresh-account timeline, run against a second account under new
/// parties: start, five escrowed payments, cancellation, then a withdrawal
/// whose validation data the caller chooses at or below the threshold so
/// that the escrowed total is paid out to the seller.
pub fn fresh_account_script(
    buyer: &Address,
    seller: &Address,
    subscription_id: &Vec<u8>,
    threshold: u64,
    payment_amount: u64,
    withdrawal_validation_data: u64,
) -> (r: Vec<Operation>)
    ensures
        r@.len() == 8,
        op_is_start(r@[0], buyer@, seller@, subscription_id@, threshold),
        op_is_escrowed(r@[1], payment_amount),
        op_is_escrowed(r@[2], payment_amount),
        op_is_escrowed(r@[3], payment_amount),
        op_is_escrowed(r@[4], payment_amount),
        op_is_escrowed(r@[5], payment_amount),
        r@[6] is Cancel,
        op_is_withdraw(r@[7], withdrawal_validation_data),
{
    let mut script: Vec<Operation> = Vec::new();
    script.push(
        Operation::Start {
            buyer: *buyer,
            seller: *seller,
            subscription_id: slice_to_vec(subscription_id.as_slice()),
            validation_threshold: threshold,
        },
    );
    script.push(Operation::EscrowedPayment { amount: payment_amount });
    script.push(Operation::EscrowedPayment { amount: payment_amount });
    script.push(Operation::EscrowedPayment { amount: payment_amount });
    script.push(Operation::EscrowedPayment { amount: payment_amount });
    script.push(Operation::EscrowedPayment { amount: payment_amount });
    script.push(Operation::Cancel);
    script.push(Operation::Withdraw { validation_data: withdrawal_validation_data });
    script
}

} // verus!
