//! The tolerance-banded balance checks and the account-view assertions, at
//! their exact band edges.

use escrow_harness::address::Address;
use escrow_harness::checks::{
    abs_diff, check_cancellation_balances, check_direct_payment, check_escrow_payment,
    check_inactive, check_payment_totals, check_payout_withdrawal, check_refund_withdrawal,
    check_start_view, delta_within_band, BalanceSnapshot, FieldMismatch, ViolationKind,
};
use escrow_harness::view::EscrowAccount;

const UNIT: u64 = 1_000_000_000;
const BAND: u64 = 10_000;

fn snap(seller: u64, escrow: u64, buyer: u64) -> BalanceSnapshot {
    BalanceSnapshot { seller, escrow, buyer }
}

fn sample_account(active: bool, count: u8, total: u64) -> EscrowAccount {
    EscrowAccount {
        seller: Address { bytes: [2; 32] },
        buyer: Address { bytes: [1; 32] },
        subscription_id: b"premium_content".to_vec(),
        payment_count: count,
        total_amount: total,
        is_active: active,
        validation_threshold: 1000,
    }
}

#[test]
fn abs_diff_is_symmetric() {
    assert_eq!(abs_diff(7, 3), 4);
    assert_eq!(abs_diff(3, 7), 4);
    assert_eq!(abs_diff(5, 5), 0);
}

#[test]
fn band_edges_are_inclusive() {
    assert!(delta_within_band(UNIT + BAND, UNIT, BAND));
    assert!(delta_within_band(UNIT - BAND, UNIT, BAND));
    assert!(!delta_within_band(UNIT + BAND + 1, UNIT, BAND));
    assert!(!delta_within_band(UNIT - BAND - 1, UNIT, BAND));
    // A band wider than the expected value reaches down to zero.
    assert!(delta_within_band(0, 5, 10));
    // Near the top of the range the upper bound cannot be exceeded.
    assert!(delta_within_band(u64::MAX, u64::MAX - 1, 5));
}

#[test]
fn escrow_payment_within_band_passes() {
    let pre = snap(UNIT, 0, 10 * UNIT);
    let post = snap(UNIT, UNIT - 5_000, 9 * UNIT);
    assert!(check_escrow_payment(&pre, &post, UNIT, BAND).is_ok());
}

#[test]
fn escrow_payment_outside_band_fails() {
    let pre = snap(UNIT, 0, 10 * UNIT);
    let post = snap(UNIT, UNIT - BAND - 1, 9 * UNIT);
    let v = check_escrow_payment(&pre, &post, UNIT, BAND).unwrap_err();
    assert_eq!(v.kind, ViolationKind::EscrowDelta);
    assert_eq!(v.expected, UNIT);
    assert_eq!(v.actual, UNIT - BAND - 1);
    assert_eq!(v.tolerance, BAND);
}

#[test]
fn escrow_payment_with_seller_movement_fails() {
    let pre = snap(UNIT, 0, 10 * UNIT);
    let post = snap(UNIT + 1, UNIT, 9 * UNIT);
    let v = check_escrow_payment(&pre, &post, UNIT, BAND).unwrap_err();
    assert_eq!(v.kind, ViolationKind::SellerMoved);
    assert_eq!(v.expected, UNIT);
    assert_eq!(v.actual, UNIT + 1);
}

#[test]
fn direct_payment_credits_the_seller() {
    let pre = snap(UNIT, 5 * UNIT, 4 * UNIT);
    let post = snap(2 * UNIT - 3_000, 5 * UNIT, 3 * UNIT);
    assert!(check_direct_payment(&pre, &post, UNIT, BAND).is_ok());
}

#[test]
fn direct_payment_must_not_move_escrow() {
    let pre = snap(UNIT, 5 * UNIT, 4 * UNIT);
    let post = snap(2 * UNIT, 5 * UNIT + 1, 3 * UNIT);
    let v = check_direct_payment(&pre, &post, UNIT, BAND).unwrap_err();
    assert_eq!(v.kind, ViolationKind::EscrowMoved);
}

#[test]
fn direct_payment_outside_band_fails() {
    let pre = snap(UNIT, 5 * UNIT, 4 * UNIT);
    let post = snap(UNIT + 2 * BAND + 1, 5 * UNIT, 4 * UNIT);
    let v = check_direct_payment(&pre, &post, BAND, BAND).unwrap_err();
    assert_eq!(v.kind, ViolationKind::SellerDelta);
}

#[test]
fn cancellation_moves_no_balance() {
    let pre = snap(UNIT, 5 * UNIT, 4 * UNIT);
    let post = snap(UNIT, 5 * UNIT, 4 * UNIT - 5_000);
    assert!(check_cancellation_balances(&pre, &post).is_ok());
    let moved_escrow = snap(UNIT, 5 * UNIT - 1, 4 * UNIT);
    let v = check_cancellation_balances(&pre, &moved_escrow).unwrap_err();
    assert_eq!(v.kind, ViolationKind::EscrowMoved);
    let moved_seller = snap(UNIT + 1, 5 * UNIT, 4 * UNIT);
    let v = check_cancellation_balances(&pre, &moved_seller).unwrap_err();
    assert_eq!(v.kind, ViolationKind::SellerMoved);
}

#[test]
fn refund_withdrawal_returns_escrow_and_rent_to_buyer() {
    let rent = 2_000_000;
    let tolerance = UNIT / 100;
    let pre = snap(UNIT, 5 * UNIT + rent, 4 * UNIT);
    let post = snap(UNIT - 4_000, 0, 9 * UNIT + rent - 6_000);
    assert!(check_refund_withdrawal(&pre, &post, 5 * UNIT, rent, tolerance).is_ok());
}

#[test]
fn refund_withdrawal_failures() {
    let rent = 2_000_000;
    let tolerance = UNIT / 100;
    let pre = snap(UNIT, 5 * UNIT + rent, 4 * UNIT);

    let short = snap(UNIT, 0, 4 * UNIT + 5 * UNIT + rent - tolerance - 1);
    let v = check_refund_withdrawal(&pre, &short, 5 * UNIT, rent, tolerance).unwrap_err();
    assert_eq!(v.kind, ViolationKind::BuyerDelta);
    assert_eq!(v.expected, 5 * UNIT + rent);

    let seller_paid = snap(UNIT + tolerance + 1, 0, 9 * UNIT + rent);
    let v = check_refund_withdrawal(&pre, &seller_paid, 5 * UNIT, rent, tolerance).unwrap_err();
    assert_eq!(v.kind, ViolationKind::SellerFeeExceeded);

    let still_open = snap(UNIT, 7, 9 * UNIT + rent);
    let v = check_refund_withdrawal(&pre, &still_open, 5 * UNIT, rent, tolerance).unwrap_err();
    assert_eq!(v.kind, ViolationKind::EscrowNotClosed);
    assert_eq!(v.actual, 7);
}

#[test]
fn payout_withdrawal_pays_seller_and_returns_rent() {
    let rent = 2_000_000;
    let tolerance = UNIT / 100;
    let pre = snap(UNIT, 5 * UNIT + rent, 4 * UNIT);
    let post = snap(6 * UNIT - 3_000, 0, 4 * UNIT + rent - 5_000);
    assert!(check_payout_withdrawal(&pre, &post, 5 * UNIT, rent, tolerance).is_ok());
}

#[test]
fn payout_withdrawal_failures() {
    let rent = 2_000_000;
    let tolerance = UNIT / 100;
    let pre = snap(UNIT, 5 * UNIT + rent, 4 * UNIT);

    let seller_short = snap(UNIT + 4 * UNIT - tolerance - 1, 0, 4 * UNIT + rent);
    let v = check_payout_withdrawal(&pre, &seller_short, 5 * UNIT, rent, tolerance).unwrap_err();
    assert_eq!(v.kind, ViolationKind::SellerDelta);

    let rent_kept = snap(6 * UNIT, 0, 4 * UNIT);
    let v = check_payout_withdrawal(&pre, &rent_kept, 5 * UNIT, 2 * tolerance, tolerance)
        .unwrap_err();
    assert_eq!(v.kind, ViolationKind::RentShort);

    let still_open = snap(6 * UNIT, 3, 4 * UNIT + rent);
    let v = check_payout_withdrawal(&pre, &still_open, 5 * UNIT, rent, tolerance).unwrap_err();
    assert_eq!(v.kind, ViolationKind::EscrowNotClosed);
}

#[test]
fn start_view_accepts_the_stored_inputs() {
    let acc = sample_account(true, 0, 0);
    let buyer = Address { bytes: [1; 32] };
    let seller = Address { bytes: [2; 32] };
    assert!(check_start_view(&acc, &buyer, &seller, &b"premium_content".to_vec()).is_ok());
}

#[test]
fn start_view_rejects_each_mismatch() {
    let buyer = Address { bytes: [1; 32] };
    let seller = Address { bytes: [2; 32] };
    let id = b"premium_content".to_vec();

    let mut wrong_seller = sample_account(true, 0, 0);
    wrong_seller.seller = Address { bytes: [9; 32] };
    assert_eq!(
        check_start_view(&wrong_seller, &buyer, &seller, &id).unwrap_err(),
        FieldMismatch::Seller
    );

    let mut wrong_buyer = sample_account(true, 0, 0);
    wrong_buyer.buyer = Address { bytes: [9; 32] };
    assert_eq!(
        check_start_view(&wrong_buyer, &buyer, &seller, &id).unwrap_err(),
        FieldMismatch::Buyer
    );

    let mut wrong_id = sample_account(true, 0, 0);
    wrong_id.subscription_id = b"premium".to_vec();
    assert_eq!(
        check_start_view(&wrong_id, &buyer, &seller, &id).unwrap_err(),
        FieldMismatch::SubscriptionId
    );

    let counted = sample_account(true, 1, 0);
    assert_eq!(
        check_start_view(&counted, &buyer, &seller, &id).unwrap_err(),
        FieldMismatch::PaymentCount
    );

    let inactive = sample_account(false, 0, 0);
    assert_eq!(
        check_start_view(&inactive, &buyer, &seller, &id).unwrap_err(),
        FieldMismatch::NotActive
    );
}

#[test]
fn payment_totals_multiply_count_by_amount() {
    let acc = sample_account(true, 5, 5 * UNIT);
    assert!(check_payment_totals(&acc, 5, UNIT).is_ok());
    assert_eq!(
        check_payment_totals(&acc, 7, UNIT).unwrap_err(),
        FieldMismatch::PaymentCount
    );
    let wrong_total = sample_account(true, 5, 4 * UNIT);
    assert_eq!(
        check_payment_totals(&wrong_total, 5, UNIT).unwrap_err(),
        FieldMismatch::TotalAmount
    );
}

#[test]
fn inactive_check() {
    assert!(check_inactive(&sample_account(false, 5, 0)).is_ok());
    assert_eq!(
        check_inactive(&sample_account(true, 5, 0)).unwrap_err(),
        FieldMismatch::StillActive
    );
}
