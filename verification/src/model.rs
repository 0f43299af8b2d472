//! The harness's model of the remote escrow account's lifecycle, as observed
//! through its wire contract: Uninitialized, then Active under escrowed
//! payments, Inactive after cancellation, Closed after withdrawal. The model
//! also states which party's balance each operation is expected to move.

use vstd::prelude::*;
use vstd::slice::slice_to_vec;
use crate::address::Address;

verus! {

/// Lifecycle phase of the observed escrow account.
#[derive(Debug, Clone, Copy, PartialEq, Eq, Structural)]
pub enum EscrowPhase {
    Uninitialized,
    Active,
    Inactive,
    Closed,
}

/// The observable state the harness expects the remote escrow account to be
/// in.
#[derive(Debug, Clone)]
pub struct EscrowModel {
    pub phase: EscrowPhase,
    pub seller: Address,
    pub buyer: Address,
    /// UTF-8 bytes of the subscription identifier.
    pub subscription_id: Vec<u8>,
    pub payment_count: u8,
    pub total_amount: u64,
    pub validation_threshold: u64,
}

/// One lifecycle operation applied to the account. A direct payment goes on
/// the wire exactly like an escrowed payment; the remote system credits it
/// straight to the seller, so the model keeps the two apart.
pub enum Operation {
    Start {
        buyer: Address,
        seller: Address,
        subscription_id: Vec<u8>,
        validation_threshold: u64,
    },
    EscrowedPayment { amount: u64 },
    DirectPayment { amount: u64 },
    Cancel,
    Withdraw { validation_data: u64 },
}

/// The balance movement an operation is expected to cause, up to transaction
/// fees.
#[derive(Debug, Clone, Copy)]
pub enum BalanceEffect {
    /// A fresh account was allocated; its rent reserve comes out of the
    /// buyer's balance.
    AccountCreated,
    /// The escrow account's balance grows by the amount; the seller's does
    /// not move.
    EscrowCredit { amount: u64 },
    /// The seller's balance grows by the amount; the escrow account's does
    /// not move.
    SellerCredit { amount: u64 },
    /// Neither the escrow account's nor the seller's balance moves.
    NoChange,
    /// The account closes with balance 0: the escrowed total plus the rent
    /// reserve go back to the buyer.
    CloseRefundBuyer { escrowed: u64 },
    /// The account closes with balance 0: the escrowed total goes to the
    /// seller, the rent reserve back to the buyer.
    ClosePaySeller { escrowed: u64 },
}

/// Why an operation is rejected by the model.
#[derive(Debug, Clone, Copy, PartialEq, Eq, Structural)]
pub enum TransitionError {
    /// Start requires an account that does not exist yet.
    AlreadyStarted,
    /// Payments, direct payments and cancellation require an active account.
    NotActive,
    /// Withdrawal requires a cancelled (inactive) account.
    NotCancelled,
    /// The payment counter cannot grow past its 8-bit range.
    CounterOverflow,
    /// The escrowed total cannot grow past its 64-bit range.
    TotalOverflow,
}

/// Whether both models name the same parties and subscription.
pub open spec fn same_parties(m: EscrowModel, m2: EscrowModel) -> bool {
    &&& m2.seller@ == m.seller@
    &&& m2.buyer@ == m.buyer@
    &&& m2.subscription_id@ == m.subscription_id@
}

/// Whether counter, total and threshold are unchanged.
pub open spec fn same_counters(m: EscrowModel, m2: EscrowModel) -> bool {
    &&& m2.payment_count == m.payment_count
    &&& m2.total_amount == m.total_amount
    &&& m2.validation_threshold == m.validation_threshold
}

/// Whether the model accepts an operation in its current state.
pub open spec fn step_allowed(m: EscrowModel, op: Operation) -> bool {
    match op {
        Operation::Start { .. } => m.phase is Uninitialized,
        Operation::EscrowedPayment { amount } => m.phase is Active && m.payment_count < 255
            && m.total_amount + amount <= u64::MAX,
        Operation::DirectPayment { .. } => m.phase is Active,
        Operation::Cancel => m.phase is Active,
        Operation::Withdraw { .. } => m.phase is Inactive,
    }
}

/// The error a rejected operation raises.
pub open spec fn step_error(m: EscrowModel, op: Operation) -> TransitionError
    recommends
        !step_allowed(m, op),
{
    match op {
        Operation::Start { .. } => TransitionError::AlreadyStarted,
        Operation::EscrowedPayment { amount } => if !(m.phase is Active) {
            TransitionError::NotActive
        } else if m.payment_count >= 255 {
            TransitionError::CounterOverflow
        } else {
            TransitionError::TotalOverflow
        },
        Operation::DirectPayment { .. } => TransitionError::NotActive,
        Operation::Cancel => TransitionError::NotActive,
        Operation::Withdraw { .. } => TransitionError::NotCancelled,
    }
}

/// What an accepted operation does: the successor state and the expected
/// balance movement.
pub open spec fn step_post(
    m: EscrowModel,
    op: Operation,
    m2: EscrowModel,
    eff: BalanceEffect,
) -> bool {
    match op {
        Operation::Start { buyer, seller, subscription_id, validation_threshold } => {
            &&& m2.phase is Active
            &&& m2.buyer@ == buyer@
            &&& m2.seller@ == seller@
            &&& m2.subscription_id@ == subscription_id@
            &&& m2.payment_count == 0
            &&& m2.total_amount == 0
            &&& m2.validation_threshold == validation_threshold
            &&& eff is AccountCreated
        },
        Operation::EscrowedPayment { amount } => {
            &&& m2.phase is Active
            &&& same_parties(m, m2)
            &&& m2.payment_count == m.payment_count + 1
            &&& m2.total_amount == m.total_amount + amount
            &&& m2.validation_threshold == m.validation_threshold
            &&& eff == (BalanceEffect::EscrowCredit { amount })
        },
        Operation::DirectPayment { amount } => {
            &&& m2.phase is Active
            &&& same_parties(m, m2)
            &&& same_counters(m, m2)
            &&& eff == (BalanceEffect::SellerCredit { amount })
        },
        Operation::Cancel => {
            &&& m2.phase is Inactive
            &&& same_parties(m, m2)
            &&& same_counters(m, m2)
            &&& eff is NoChange
        },
        Operation::Withdraw { validation_data } => {
            &&& m2.phase is Closed
            &&& same_parties(m, m2)
            &&& same_counters(m, m2)
            &&& (if validation_data > m.validation_threshold {
                eff == (BalanceEffect::CloseRefundBuyer { escrowed: m.total_amount })
            } else {
                eff == (BalanceEffect::ClosePaySeller { escrowed: m.total_amount })
            })
        },
    }
}

impl EscrowModel {
    /// The model of an account that does not exist yet.
    pub fn uninitialized() -> (r: EscrowModel)
        ensures
            r.phase is Uninitialized,
            r.payment_count == 0,
            r.total_amount == 0,
            r.validation_threshold == 0,
            r.subscription_id@ == Seq::<u8>::empty(),
    {
        let r = EscrowModel {
            phase: EscrowPhase::Uninitialized,
            seller: Address::zero(),
            buyer: Address::zero(),
            subscription_id: Vec::new(),
            payment_count: 0,
            total_amount: 0,
            validation_threshold: 0,
        };
        proof {
            assert(r.subscription_id@ =~= Seq::<u8>::empty());
        }
        r
    }

    /// Applies one operation: the successor state and the balance movement
    /// it is expected to cause, or the reason the operation is rejected.
    pub fn apply(&self, op: Operation) -> (r: Result<(EscrowModel, BalanceEffect), TransitionError>)
        ensures
            r is Ok <==> step_allowed(*self, op),
            (r matches Ok((m2, eff)) ==> step_post(*self, op, m2, eff)),
            (r matches Err(e) ==> e == step_error(*self, op)),
    {
        match op {
            Operation::Start { buyer, seller, subscription_id, validation_threshold } => {
                if self.phase != EscrowPhase::Uninitialized {
                    return Err(TransitionError::AlreadyStarted);
                }
                let m2 = EscrowModel {
                    phase: EscrowPhase::Active,
                    seller,
                    buyer,
                    subscription_id,
                    payment_count: 0,
                    total_amount: 0,
                    validation_threshold,
                };
                Ok((m2, BalanceEffect::AccountCreated))
            },
            Operation::EscrowedPayment { amount } => {
                if self.phase != EscrowPhase::Active {
                    return Err(TransitionError::NotActive);
                }
                if self.payment_count >= 255 {
                    return Err(TransitionError::CounterOverflow);
                }
                if self.total_amount > u64::MAX - amount {
                    return Err(TransitionError::TotalOverflow);
                }
                let m2 = EscrowModel {
                    phase: EscrowPhase::Active,
                    seller: self.seller,
                    buyer: self.buyer,
                    subscription_id: slice_to_vec(self.subscription_id.as_slice()),
                    payment_count: self.payment_count + 1,
                    total_amount: self.total_amount + amount,
                    validation_threshold: self.validation_threshold,
                };
                Ok((m2, BalanceEffect::EscrowCredit { amount }))
            },
            Operation::DirectPayment { amount } => {
                if self.phase != EscrowPhase::Active {
                    return Err(TransitionError::NotActive);
                }
                let m2 = EscrowModel {
                    phase: EscrowPhase::Active,
                    seller: self.seller,
                    buyer: self.buyer,
                    subscription_id: slice_to_vec(self.subscription_id.as_slice()),
                    payment_count: self.payment_count,
                    total_amount: self.total_amount,
                    validation_threshold: self.validation_threshold,
                };
                Ok((m2, BalanceEffect::SellerCredit { amount }))
            },
            Operation::Cancel => {
                if self.phase != EscrowPhase::Active {
                    return Err(TransitionError::NotActive);
                }
                let m2 = EscrowModel {
                    phase: EscrowPhase::Inactive,
                    seller: self.seller,
                    buyer: self.buyer,
                    subscription_id: slice_to_vec(self.subscription_id.as_slice()),
                    payment_count: self.payment_count,
                    total_amount: self.total_amount,
                    validation_threshold: self.validation_threshold,
                };
                Ok((m2, BalanceEffect::NoChange))
            },
            Operation::Withdraw { validation_data } => {
                if self.phase != EscrowPhase::Inactive {
                    return Err(TransitionError::NotCancelled);
                }
                let m2 = EscrowModel {
                    phase: EscrowPhase::Closed,
                    seller: self.seller,
                    buyer: self.buyer,
                    subscription_id: slice_to_vec(self.subscription_id.as_slice()),
                    payment_count: self.payment_count,
                    total_amount: self.total_amount,
                    validation_threshold: self.validation_threshold,
                };
                let eff = if validation_data > self.validation_threshold {
                    BalanceEffect::CloseRefundBuyer { escrowed: self.total_amount }
                } else {
                    BalanceEffect::ClosePaySeller { escrowed: self.total_amount }
                };
                Ok((m2, eff))
            },
        }
    }
}

/// One escrowed payment applied to the model state.
pub open spec fn paid_once(m: EscrowModel, amount: u64) -> EscrowModel {
    EscrowModel {
        payment_count: (m.payment_count + 1) as u8,
        total_amount: (m.total_amount + amount) as u64,
        ..m
    }
}

/// N consecutive escrowed payments of one amount applied to the model state.
pub open spec fn paid_n(m: EscrowModel, n: nat, amount: u64) -> EscrowModel
    decreases n,
{
    if n == 0 {
        m
    } else {
        paid_once(paid_n(m, (n - 1) as nat, amount), amount)
    }
}

/// Law: after N consecutive successful escrowed payments of one amount, the
/// payment counter has grown by exactly N and the escrowed total by exactly
/// N times the amount; the account is still active and every other field is
/// untouched.
pub proof fn lemma_payment_series(m: EscrowModel, n: nat, amount: u64)
    requires
        m.phase is Active,
        m.payment_count + n <= 255,
        m.total_amount + n * amount <= u64::MAX,
    ensures
        paid_n(m, n, amount).phase is Active,
        paid_n(m, n, amount).payment_count == m.payment_count + n,
        paid_n(m, n, amount).total_amount == m.total_amount + n * amount,
        paid_n(m, n, amount).seller == m.seller,
        paid_n(m, n, amount).buyer == m.buyer,
        paid_n(m, n, amount).subscription_id == m.subscription_id,
        paid_n(m, n, amount).validation_threshold == m.validation_threshold,
    decreases n,
{
    if n > 0 {
        let k = (n - 1) as nat;
        assert(k * amount + amount == n * amount) by (nonlinear_arith)
            requires
                n >= 1,
                k == n - 1,
        ;
        lemma_payment_series(m, k, amount);
    } else {
        assert(n * amount == 0) by (nonlinear_arith)
            requires
                n == 0,
        ;
    }
}

/// Law: starting a subscription yields an active account that stores the
/// buyer, the seller and the subscription identifier as given, counts no
/// payment, escrows nothing, and keeps the given threshold.
pub proof fn lemma_start_initializes(
    m: EscrowModel,
    op: Operation,
    m2: EscrowModel,
    eff: BalanceEffect,
    buyer: Address,
    seller: Address,
    subscription_id: Vec<u8>,
    validation_threshold: u64,
)
    requires
        step_allowed(m, op),
        step_post(m, op, m2, eff),
        op == (Operation::Start { buyer, seller, subscription_id, validation_threshold }),
    ensures
        m2.phase is Active,
        m2.buyer@ == buyer@,
        m2.seller@ == seller@,
        m2.subscription_id@ == subscription_id@,
        m2.payment_count == 0,
        m2.total_amount == 0,
        m2.validation_threshold == validation_threshold,
{
}

/// Law: cancellation deactivates the account exactly once and moves no
/// balance; counters, total and threshold are untouched.
pub proof fn lemma_cancellation_preserves(
    m: EscrowModel,
    m2: EscrowModel,
    eff: BalanceEffect,
)
    requires
        step_allowed(m, Operation::Cancel),
        step_post(m, Operation::Cancel, m2, eff),
    ensures
        m2.phase is Inactive,
        same_counters(m, m2),
        same_parties(m, m2),
        eff is NoChange,
{
}

/// Law: a withdrawal whose validation data lies above the threshold closes
/// the account and refunds the full escrowed total (plus the rent reserve,
/// which the balance checker adds) to the buyer.
pub proof fn lemma_withdrawal_refunds(
    m: EscrowModel,
    validation_data: u64,
    m2: EscrowModel,
    eff: BalanceEffect,
)
    requires
        step_allowed(m, Operation::Withdraw { validation_data }),
        step_post(m, Operation::Withdraw { validation_data }, m2, eff),
        validation_data > m.validation_threshold,
    ensures
        m2.phase is Closed,
        same_counters(m, m2),
        eff == (BalanceEffect::CloseRefundBuyer { escrowed: m.total_amount }),
{
}

/// Law: a withdrawal whose validation data lies at or below the threshold
/// closes the account and pays the full escrowed total to the seller, the
/// rent reserve going back to the buyer.
pub proof fn lemma_withdrawal_pays(
    m: EscrowModel,
    validation_data: u64,
    m2: EscrowModel,
    eff: BalanceEffect,
)
    requires
        step_allowed(m, Operation::Withdraw { validation_data }),
        step_post(m, Operation::Withdraw { validation_data }, m2, eff),
        validation_data <= m.validation_threshold,
    ensures
        m2.phase is Closed,
        same_counters(m, m2),
        eff == (BalanceEffect::ClosePaySeller { escrowed: m.total_amount }),
{
}

/// Law: once an account exists, no accepted operation ever decreases its
/// payment counter; only starting a fresh account sets the counter, at 0.
pub proof fn lemma_payment_count_monotone(
    m: EscrowModel,
    op: Operation,
    m2: EscrowModel,
    eff: BalanceEffect,
)
    requires
        step_allowed(m, op),
        step_post(m, op, m2, eff),
    ensures
        m2.payment_count >= m.payment_count || op is Start,
{
}

/// Law: once the account has left the active phase it never becomes active
/// again; deactivation happens at most once.
pub proof fn lemma_active_never_returns(
    m: EscrowModel,
    op: Operation,
    m2: EscrowModel,
    eff: BalanceEffect,
)
    requires
        step_allowed(m, op),
        step_post(m, op, m2, eff),
        !(m.phase is Active),
        !(m.phase is Uninitialized),
    ensures
        !(m2.phase is Active),
{
}

} // verus!
