//! Verification steps of the scenario runner: tolerance-banded comparison of
//! balance deltas, and exact comparison of fetched account fields, each
//! returning the expected and observed values on failure.

use vstd::prelude::*;
use crate::address::Address;
use crate::view::EscrowAccount;

verus! {

/// Three balances captured in the fixed order seller, escrow account, buyer,
/// relative to one point in the scenario timeline.
#[derive(Debug, Clone, Copy, PartialEq, Eq, Structural)]
pub struct BalanceSnapshot {
    pub seller: u64,
    pub escrow: u64,
    pub buyer: u64,
}

/// Absolute difference of two balances.
pub open spec fn diff_of(a: u64, b: u64) -> int {
    if a >= b {
        a - b
    } else {
        b - a
    }
}

/// Absolute difference of two balances.
pub fn abs_diff(a: u64, b: u64) -> (r: u64)
    ensures
        r == diff_of(a, b),
{
    if a >= b {
        a - b
    } else {
        b - a
    }
}

/// Whether an observed delta lies within the tolerance band around the
/// expected delta. The band absorbs transaction-fee noise.
pub open spec fn within_band(observed: int, expected: int, tolerance: int) -> bool {
    expected - tolerance <= observed <= expected + tolerance
}

/// Tolerance-banded comparison of an observed delta with an expected one.
pub fn delta_within_band(observed: u64, expected: u64, tolerance: u64) -> (r: bool)
    ensures
        r == within_band(observed as int, expected as int, tolerance as int),
{
    let hi_ok = if expected <= u64::MAX - tolerance {
        observed <= expected + tolerance
    } else {
        true
    };
    let lo_ok = if expected >= tolerance {
        observed >= expected - tolerance
    } else {
        true
    };
    hi_ok && lo_ok
}

/// Which comparison of a scenario's balance assertions failed.
#[derive(Debug, Clone, Copy, PartialEq, Eq, Structural)]
pub enum ViolationKind {
    /// The escrow account's delta left the tolerance band.
    EscrowDelta,
    /// The seller's delta left the tolerance band.
    SellerDelta,
    /// The buyer's delta left the tolerance band.
    BuyerDelta,
    /// The seller's balance moved though it should not have.
    SellerMoved,
    /// The escrow account's balance moved though it should not have.
    EscrowMoved,
    /// The escrow account still holds a balance though it should be closed.
    EscrowNotClosed,
    /// The seller's balance moved by more than a transaction fee.
    SellerFeeExceeded,
    /// The buyer's refund fell short of the rent reserve.
    RentShort,
}

/// One failed balance comparison, with the expected and observed values and
/// the tolerance that applied.
#[derive(Debug, Clone, Copy, PartialEq, Eq, Structural)]
pub struct InvariantViolation {
    pub kind: ViolationKind,
    pub expected: u64,
    pub actual: u64,
    pub tolerance: u64,
}

// ---------------------------------------------------------------------------
// Escrowed payments.
// ---------------------------------------------------------------------------

/// An escrowed payment moves the paid amount into the escrow account, up to
/// fees, and leaves the seller's balance exactly unchanged.
pub open spec fn escrow_payment_ok(
    pre: BalanceSnapshot,
    post: BalanceSnapshot,
    amount: u64,
    tolerance: u64,
) -> bool {
    &&& within_band(diff_of(post.escrow, pre.escrow), amount as int, tolerance as int)
    &&& post.seller == pre.seller
}

/// The violation an ill-balanced escrowed payment reports.
pub open spec fn escrow_payment_violation(
    pre: BalanceSnapshot,
    post: BalanceSnapshot,
    amount: u64,
    tolerance: u64,
) -> InvariantViolation
    recommends
        !escrow_payment_ok(pre, post, amount, tolerance),
{
    if !within_band(diff_of(post.escrow, pre.escrow), amount as int, tolerance as int) {
        InvariantViolation {
            kind: ViolationKind::EscrowDelta,
            expected: amount,
            actual: diff_of(post.escrow, pre.escrow) as u64,
            tolerance,
        }
    } else {
        InvariantViolation {
            kind: ViolationKind::SellerMoved,
            expected: pre.seller,
            actual: post.seller,
            tolerance: 0,
        }
    }
}

/// Checks an escrowed payment's balance deltas: the escrow account grew by
/// the paid amount within tolerance and the seller's balance did not move.
pub fn check_escrow_payment(
    pre: &BalanceSnapshot,
    post: &BalanceSnapshot,
    amount: u64,
    tolerance: u64,
) -> (r: Result<(), InvariantViolation>)
    ensures
        r is Ok <==> escrow_payment_ok(*pre, *post, amount, tolerance),
        (r matches Err(v) ==> v == escrow_payment_violation(*pre, *post, amount, tolerance)),
{
    let escrow_delta = abs_diff(post.escrow, pre.escrow);
    if !delta_within_band(escrow_delta, amount, tolerance) {
        return Err(
            InvariantViolation {
                kind: ViolationKind::EscrowDelta,
                expected: amount,
                actual: escrow_delta,
                tolerance,
            },
        );
    }
    if post.seller != pre.seller {
        return Err(
            InvariantViolation {
                kind: ViolationKind::SellerMoved,
                expected: pre.seller,
                actual: post.seller,
                tolerance: 0,
            },
        );
    }
    Ok(())
}

// ---------------------------------------------------------------------------
// Direct payments.
// ---------------------------------------------------------------------------

/// A direct payment moves the paid amount to the seller, up to fees, and
/// leaves the escrow account's balance exactly unchanged.
pub open spec fn direct_payment_ok(
    pre: BalanceSnapshot,
    post: BalanceSnapshot,
    amount: u64,
    tolerance: u64,
) -> bool {
    &&& within_band(diff_of(post.seller, pre.seller), amount as int, tolerance as int)
    &&& post.escrow == pre.escrow
}

/// The violation an ill-balanced direct payment reports.
pub open spec fn direct_payment_violation(
    pre: BalanceSnapshot,
    post: BalanceSnapshot,
    amount: u64,
    tolerance: u64,
) -> InvariantViolation
    recommends
        !direct_payment_ok(pre, post, amount, tolerance),
{
    if !within_band(diff_of(post.seller, pre.seller), amount as int, tolerance as int) {
        InvariantViolation {
            kind: ViolationKind::SellerDelta,
            expected: amount,
            actual: diff_of(post.seller, pre.seller) as u64,
            tolerance,
        }
    } else {
        InvariantViolation {
            kind: ViolationKind::EscrowMoved,
            expected: pre.escrow,
            actual: post.escrow,
            tolerance: 0,
        }
    }
}

/// Checks a direct payment's balance deltas: the seller's balance grew by
/// the paid amount within tolerance and the escrow account's did not move.
pub fn check_direct_payment(
    pre: &BalanceSnapshot,
    post: &BalanceSnapshot,
    amount: u64,
    tolerance: u64,
) -> (r: Result<(), InvariantViolation>)
    ensures
        r is Ok <==> direct_payment_ok(*pre, *post, amount, tolerance),
        (r matches Err(v) ==> v == direct_payment_violation(*pre, *post, amount, tolerance)),
{
    let seller_delta = abs_diff(post.seller, pre.seller);
    if !delta_within_band(seller_delta, amount, tolerance) {
        return Err(
            InvariantViolation {
                kind: ViolationKind::SellerDelta,
                expected: amount,
                actual: seller_delta,
                tolerance,
            },
        );
    }
    if post.escrow != pre.escrow {
        return Err(
            InvariantViolation {
                kind: ViolationKind::EscrowMoved,
                expected: pre.escrow,
                actual: post.escrow,
                tolerance: 0,
            },
        );
    }
    Ok(())
}

// ---------------------------------------------------------------------------
// Cancellation.
// ---------------------------------------------------------------------------

/// Cancellation moves no balance: neither the escrow account's nor the
/// seller's balance changes.
pub open spec fn cancellation_balances_ok(pre: BalanceSnapshot, post: BalanceSnapshot) -> bool {
    post.escrow == pre.escrow && post.seller == pre.seller
}

/// The violation an ill-balanced cancellation reports.
pub open spec fn cancellation_violation(
    pre: BalanceSnapshot,
    post: BalanceSnapshot,
) -> InvariantViolation
    recommends
        !cancellation_balances_ok(pre, post),
{
    if post.escrow != pre.escrow {
        InvariantViolation {
            kind: ViolationKind::EscrowMoved,
            expected: pre.escrow,
            actual: post.escrow,
            tolerance: 0,
        }
    } else {
        InvariantViolation {
            kind: ViolationKind::SellerMoved,
            expected: pre.seller,
            actual: post.seller,
            tolerance: 0,
        }
    }
}

/// Checks that cancellation moved no balance.
pub fn check_cancellation_balances(pre: &BalanceSnapshot, post: &BalanceSnapshot) -> (r: Result<
    (),
    InvariantViolation,
>)
    ensures
        r is Ok <==> cancellation_balances_ok(*pre, *post),
        (r matches Err(v) ==> v == cancellation_violation(*pre, *post)),
{
    if post.escrow != pre.escrow {
        return Err(
            InvariantViolation {
                kind: ViolationKind::EscrowMoved,
                expected: pre.escrow,
                actual: post.escrow,
                tolerance: 0,
            },
        );
    }
    if post.seller != pre.seller {
        return Err(
            InvariantViolation {
                kind: ViolationKind::SellerMoved,
                expected: pre.seller,
                actual: post.seller,
                tolerance: 0,
            },
        );
    }
    Ok(())
}

// ---------------------------------------------------------------------------
// Withdrawals.
// ---------------------------------------------------------------------------

/// A rejected-and-refunded withdrawal: the buyer gets the escrowed total
/// plus the rent reserve back within tolerance, the seller pays at most a
/// transaction fee, and the escrow account closes to balance 0.
pub open spec fn refund_withdrawal_ok(
    pre: BalanceSnapshot,
    post: BalanceSnapshot,
    escrowed: u64,
    rent: u64,
    tolerance: u64,
) -> bool {
    &&& within_band(diff_of(post.buyer, pre.buyer), escrowed + rent, tolerance as int)
    &&& diff_of(post.seller, pre.seller) <= tolerance
    &&& post.escrow == 0
}

/// The violation an ill-balanced refunded withdrawal reports.
pub open spec fn refund_withdrawal_violation(
    pre: BalanceSnapshot,
    post: BalanceSnapshot,
    escrowed: u64,
    rent: u64,
    tolerance: u64,
) -> InvariantViolation
    recommends
        !refund_withdrawal_ok(pre, post, escrowed, rent, tolerance),
{
    if !within_band(diff_of(post.buyer, pre.buyer), escrowed + rent, tolerance as int) {
        InvariantViolation {
            kind: ViolationKind::BuyerDelta,
            expected: (escrowed + rent) as u64,
            actual: diff_of(post.buyer, pre.buyer) as u64,
            tolerance,
        }
    } else if !(diff_of(post.seller, pre.seller) <= tolerance) {
        InvariantViolation {
            kind: ViolationKind::SellerFeeExceeded,
            expected: pre.seller,
            actual: post.seller,
            tolerance,
        }
    } else {
        InvariantViolation {
            kind: ViolationKind::EscrowNotClosed,
            expected: 0,
            actual: post.escrow,
            tolerance: 0,
        }
    }
}

/// Checks a withdrawal whose validation data lay above the threshold: the
/// remote system refunds the buyer the full escrowed total plus rent, the
/// seller loses at most a fee, and the escrow account closes.
pub fn check_refund_withdrawal(
    pre: &BalanceSnapshot,
    post: &BalanceSnapshot,
    escrowed: u64,
    rent: u64,
    tolerance: u64,
) -> (r: Result<(), InvariantViolation>)
    requires
        escrowed + rent <= u64::MAX,
    ensures
        r is Ok <==> refund_withdrawal_ok(*pre, *post, escrowed, rent, tolerance),
        (r matches Err(v) ==> v == refund_withdrawal_violation(*pre, *post, escrowed, rent,
        tolerance)),
{
    let buyer_delta = abs_diff(post.buyer, pre.buyer);
    if !delta_within_band(buyer_delta, escrowed + rent, tolerance) {
        return Err(
            InvariantViolation {
                kind: ViolationKind::BuyerDelta,
                expected: escrowed + rent,
                actual: buyer_delta,
                tolerance,
            },
        );
    }
    let seller_delta = abs_diff(post.seller, pre.seller);
    if seller_delta > tolerance {
        return Err(
            InvariantViolation {
                kind: ViolationKind::SellerFeeExceeded,
                expected: pre.seller,
                actual: post.seller,
                tolerance,
            },
        );
    }
    if post.escrow != 0 {
        return Err(
            InvariantViolation {
                kind: ViolationKind::EscrowNotClosed,
                expected: 0,
                actual: post.escrow,
                tolerance: 0,
            },
        );
    }
    Ok(())
}

/// An accepted withdrawal: the seller gets the full escrowed total within
/// tolerance, the buyer gets at least the rent reserve back up to tolerance,
/// and the escrow account closes to balance 0.
pub open spec fn payout_withdrawal_ok(
    pre: BalanceSnapshot,
    post: BalanceSnapshot,
    escrowed: u64,
    rent: u64,
    tolerance: u64,
) -> bool {
    &&& within_band(diff_of(post.seller, pre.seller), escrowed as int, tolerance as int)
    &&& diff_of(post.buyer, pre.buyer) + tolerance >= rent
    &&& post.escrow == 0
}

/// The violation an ill-balanced paid-out withdrawal reports.
pub open spec fn payout_withdrawal_violation(
    pre: BalanceSnapshot,
    post: BalanceSnapshot,
    escrowed: u64,
    rent: u64,
    tolerance: u64,
) -> InvariantViolation
    recommends
        !payout_withdrawal_ok(pre, post, escrowed, rent, tolerance),
{
    if !within_band(diff_of(post.seller, pre.seller), escrowed as int, tolerance as int) {
        InvariantViolation {
            kind: ViolationKind::SellerDelta,
            expected: escrowed,
            actual: diff_of(post.seller, pre.seller) as u64,
            tolerance,
        }
    } else if !(diff_of(post.buyer, pre.buyer) + tolerance >= rent) {
        InvariantViolation {
            kind: ViolationKind::RentShort,
            expected: rent,
            actual: diff_of(post.buyer, pre.buyer) as u64,
            tolerance,
        }
    } else {
        InvariantViolation {
            kind: ViolationKind::EscrowNotClosed,
            expected: 0,
            actual: post.escrow,
            tolerance: 0,
        }
    }
}

/// Checks a withdrawal whose validation data lay at or below the threshold:
/// the remote system pays the seller the full escrowed total, refunds the
/// buyer the rent reserve, and the escrow account closes.
pub fn check_payout_withdrawal(
    pre: &BalanceSnapshot,
    post: &BalanceSnapshot,
    escrowed: u64,
    rent: u64,
    tolerance: u64,
) -> (r: Result<(), InvariantViolation>)
    ensures
        r is Ok <==> payout_withdrawal_ok(*pre, *post, escrowed, rent, tolerance),
        (r matches Err(v) ==> v == payout_withdrawal_violation(*pre, *post, escrowed, rent,
        tolerance)),
{
    let seller_delta = abs_diff(post.seller, pre.seller);
    if !delta_within_band(seller_delta, escrowed, tolerance) {
        return Err(
            InvariantViolation {
                kind: ViolationKind::SellerDelta,
                expected: escrowed,
                actual: seller_delta,
                tolerance,
            },
        );
    }
    let buyer_delta = abs_diff(post.buyer, pre.buyer);
    let rent_returned = if rent >= tolerance {
        buyer_delta >= rent - tolerance
    } else {
        true
    };
    if !rent_returned {
        return Err(
            InvariantViolation {
                kind: ViolationKind::RentShort,
                expected: rent,
                actual: buyer_delta,
                tolerance,
            },
        );
    }
    if post.escrow != 0 {
        return Err(
            InvariantViolation {
                kind: ViolationKind::EscrowNotClosed,
                expected: 0,
                actual: post.escrow,
                tolerance: 0,
            },
        );
    }
    Ok(())
}

// ---------------------------------------------------------------------------
// Account-view field assertions.
// ---------------------------------------------------------------------------

/// Which fetched account field did not hold its expected value.
#[derive(Debug, Clone, Copy, PartialEq, Eq, Structural)]
pub enum FieldMismatch {
    Seller,
    Buyer,
    SubscriptionId,
    PaymentCount,
    TotalAmount,
    NotActive,
    StillActive,
}

/// A freshly started subscription stores the two parties and the
/// subscription identifier, counts no payment yet, and is active.
pub open spec fn start_view_ok(
    acc: EscrowAccount,
    buyer: Seq<u8>,
    seller: Seq<u8>,
    subscription_id: Seq<u8>,
) -> bool {
    &&& acc.seller@ == seller
    &&& acc.buyer@ == buyer
    &&& acc.subscription_id@ == subscription_id
    &&& acc.payment_count == 0
    &&& acc.is_active
}

/// The first field a mismatched start view reports, checked in stored
/// order.
pub open spec fn start_view_mismatch(
    acc: EscrowAccount,
    buyer: Seq<u8>,
    seller: Seq<u8>,
    subscription_id: Seq<u8>,
) -> FieldMismatch
    recommends
        !start_view_ok(acc, buyer, seller, subscription_id),
{
    if acc.seller@ != seller {
        FieldMismatch::Seller
    } else if acc.buyer@ != buyer {
        FieldMismatch::Buyer
    } else if acc.subscription_id@ != subscription_id {
        FieldMismatch::SubscriptionId
    } else if acc.payment_count != 0 {
        FieldMismatch::PaymentCount
    } else {
        FieldMismatch::NotActive
    }
}

/// Compares two byte strings.
fn bytes_equal(a: &Vec<u8>, b: &Vec<u8>) -> (r: bool)
    ensures
        r == (a@ == b@),
{
    if a.len() != b.len() {
        return false;
    }
    let n = a.len();
    let mut i: usize = 0;
    while i < n
        invariant
            0 <= i <= n,
            n == a@.len() == b@.len(),
            forall|k: int| 0 <= k < i ==> a@[k] == b@[k],
        decreases n - i,
    {
        if a[i] != b[i] {
            return false;
        }
        i = i + 1;
    }
    proof {
        assert(a@ =~= b@);
    }
    true
}

/// Checks the account view right after `start_subscription`: stored seller,
/// buyer and subscription identifier equal the inputs, the payment counter
/// is 0, and the subscription is active.
pub fn check_start_view(
    acc: &EscrowAccount,
    buyer: &Address,
    seller: &Address,
    subscription_id: &Vec<u8>,
) -> (r: Result<(), FieldMismatch>)
    ensures
        r is Ok <==> start_view_ok(*acc, buyer@, seller@, subscription_id@),
        (r matches Err(f) ==> f == start_view_mismatch(*acc, buyer@, seller@, subscription_id@)),
{
    if !acc.seller.equals(seller) {
        return Err(FieldMismatch::Seller);
    }
    if !acc.buyer.equals(buyer) {
        return Err(FieldMismatch::Buyer);
    }
    if !bytes_equal(&acc.subscription_id, subscription_id) {
        return Err(FieldMismatch::SubscriptionId);
    }
    if acc.payment_count != 0 {
        return Err(FieldMismatch::PaymentCount);
    }
    if !acc.is_active {
        return Err(FieldMismatch::NotActive);
    }
    Ok(())
}

/// After a run of escrowed payments the view counts them and totals them.
pub open spec fn payment_totals_ok(acc: EscrowAccount, count: u8, amount: u64) -> bool {
    acc.payment_count == count && acc.total_amount == count * amount
}

/// The first field a mismatched totals view reports.
pub open spec fn payment_totals_mismatch(acc: EscrowAccount, count: u8, amount: u64) -> FieldMismatch
    recommends
        !payment_totals_ok(acc, count, amount),
{
    if acc.payment_count != count {
        FieldMismatch::PaymentCount
    } else {
        FieldMismatch::TotalAmount
    }
}

/// Checks the account view after a run of escrowed payments: the counter
/// equals the number of payments and the total equals count times amount.
pub fn check_payment_totals(acc: &EscrowAccount, count: u8, amount: u64) -> (r: Result<
    (),
    FieldMismatch,
>)
    requires
        count * amount <= u64::MAX,
    ensures
        r is Ok <==> payment_totals_ok(*acc, count, amount),
        (r matches Err(f) ==> f == payment_totals_mismatch(*acc, count, amount)),
{
    if acc.payment_count != count {
        return Err(FieldMismatch::PaymentCount);
    }
    let expected_total = (count as u64) * amount;
    proof {
        assert(count as u64 as int * amount == count * amount) by (nonlinear_arith);
    }
    if acc.total_amount != expected_total {
        return Err(FieldMismatch::TotalAmount);
    }
    Ok(())
}

/// Checks that the view shows an inactive subscription after cancellation.
pub fn check_inactive(acc: &EscrowAccount) -> (r: Result<(), FieldMismatch>)
    ensures
        r is Ok <==> !acc.is_active,
        (r matches Err(f) ==> f == FieldMismatch::StillActive),
{
    if acc.is_active {
        return Err(FieldMismatch::StillActive);
    }
    Ok(())
}

} // verus!
