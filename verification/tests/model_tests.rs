//! The observed escrow lifecycle, run through the model: the full standard
//! scenario, the fresh-account scenario, and every rejection.

use escrow_harness::address::Address;
use escrow_harness::model::{
    BalanceEffect, EscrowModel, EscrowPhase, Operation, TransitionError,
};
use escrow_harness::scenario::{fresh_account_script, standard_script};

const UNIT: u64 = 1_000_000_000;

fn addr(fill: u8) -> Address {
    Address { bytes: [fill; 32] }
}

#[test]
fn standard_scenario_timeline() {
    let buyer = addr(1);
    let seller = addr(2);
    let id = b"premium_content".to_vec();
    let script = standard_script(&buyer, &seller, &id, 1000, UNIT, 2000);
    assert_eq!(script.len(), 10);

    let mut m = EscrowModel::uninitialized();
    let mut effects: Vec<BalanceEffect> = Vec::new();
    for op in script {
        let (next, eff) = m.apply(op).unwrap();
        m = next;
        effects.push(eff);
    }

    // Start stored the inputs and counted nothing.
    assert!(matches!(effects[0], BalanceEffect::AccountCreated));
    // Five escrowed payments, each crediting the escrow account.
    for k in 1..=5 {
        assert!(matches!(effects[k], BalanceEffect::EscrowCredit { amount } if amount == UNIT));
    }
    // Two direct payments, credited straight to the seller.
    for k in 6..=7 {
        assert!(matches!(effects[k], BalanceEffect::SellerCredit { amount } if amount == UNIT));
    }
    // Cancellation moves nothing.
    assert!(matches!(effects[8], BalanceEffect::NoChange));
    // Validation data 2000 lies above the threshold 1000: the escrowed total
    // is refunded to the buyer and the account closes.
    assert!(
        matches!(effects[9], BalanceEffect::CloseRefundBuyer { escrowed } if escrowed == 5 * UNIT)
    );
    assert_eq!(m.phase, EscrowPhase::Closed);
    // Direct payments never touched the counters: 5 payments, 5 units.
    assert_eq!(m.payment_count, 5);
    assert_eq!(m.total_amount, 5 * UNIT);
    assert_eq!(m.validation_threshold, 1000);
    assert_eq!(m.subscription_id, b"premium_content".to_vec());
}

#[test]
fn intermediate_states_of_standard_scenario() {
    let buyer = addr(1);
    let seller = addr(2);
    let id = b"premium_content".to_vec();
    let script = standard_script(&buyer, &seller, &id, 1000, UNIT, 2000);

    let mut m = EscrowModel::uninitialized();
    let mut states: Vec<EscrowModel> = Vec::new();
    for op in script {
        let (next, _) = m.apply(op).unwrap();
        states.push(next.clone());
        m = next;
    }
    // After start: active, zero payments, inputs stored.
    assert_eq!(states[0].phase, EscrowPhase::Active);
    assert_eq!(states[0].payment_count, 0);
    assert_eq!(states[0].total_amount, 0);
    assert_eq!(states[0].buyer.bytes, [1; 32]);
    assert_eq!(states[0].seller.bytes, [2; 32]);
    // After the N-th escrowed payment: count N, total N units.
    for k in 1..=5 {
        assert_eq!(states[k].payment_count as usize, k);
        assert_eq!(states[k].total_amount, k as u64 * UNIT);
    }
    // Direct payments left count and total alone.
    assert_eq!(states[7].payment_count, 5);
    assert_eq!(states[7].total_amount, 5 * UNIT);
    // After cancellation: inactive, counters kept.
    assert_eq!(states[8].phase, EscrowPhase::Inactive);
    assert_eq!(states[8].payment_count, 5);
}

#[test]
fn fresh_account_scenario_pays_the_seller() {
    let buyer = addr(3);
    let seller = addr(4);
    let id = b"premium_content_2".to_vec();
    let script = fresh_account_script(&buyer, &seller, &id, 1000, UNIT, 500);
    assert_eq!(script.len(), 8);

    let mut m = EscrowModel::uninitialized();
    let mut last_effect = BalanceEffect::NoChange;
    for op in script {
        let (next, eff) = m.apply(op).unwrap();
        m = next;
        last_effect = eff;
    }
    // Validation data 500 lies at or below the threshold 1000: the escrowed
    // total goes to the seller and the account closes.
    assert!(
        matches!(last_effect, BalanceEffect::ClosePaySeller { escrowed } if escrowed == 5 * UNIT)
    );
    assert_eq!(m.phase, EscrowPhase::Closed);
    assert_eq!(m.subscription_id, b"premium_content_2".to_vec());
}

#[test]
fn withdrawal_at_threshold_pays_the_seller() {
    let m = started_model();
    let (m2, _) = m.apply(Operation::Cancel).unwrap();
    let (m3, eff) = m2.apply(Operation::Withdraw { validation_data: 1000 }).unwrap();
    assert!(matches!(eff, BalanceEffect::ClosePaySeller { escrowed } if escrowed == 0));
    assert_eq!(m3.phase, EscrowPhase::Closed);
}

fn started_model() -> EscrowModel {
    let (m, _) = EscrowModel::uninitialized()
        .apply(Operation::Start {
            buyer: addr(1),
            seller: addr(2),
            subscription_id: b"premium_content".to_vec(),
            validation_threshold: 1000,
        })
        .unwrap();
    m
}

#[test]
fn rejects_operations_out_of_phase() {
    let uninitialized = EscrowModel::uninitialized();
    assert_eq!(
        uninitialized.apply(Operation::EscrowedPayment { amount: 1 }).unwrap_err(),
        TransitionError::NotActive
    );
    assert_eq!(
        uninitialized.apply(Operation::Cancel).unwrap_err(),
        TransitionError::NotActive
    );
    assert_eq!(
        uninitialized.apply(Operation::Withdraw { validation_data: 0 }).unwrap_err(),
        TransitionError::NotCancelled
    );

    let started = started_model();
    assert_eq!(
        started
            .apply(Operation::Start {
                buyer: addr(1),
                seller: addr(2),
                subscription_id: b"premium_content".to_vec(),
                validation_threshold: 1000,
            })
            .unwrap_err(),
        TransitionError::AlreadyStarted
    );
    // Withdrawal requires cancellation first.
    assert_eq!(
        started.apply(Operation::Withdraw { validation_data: 2000 }).unwrap_err(),
        TransitionError::NotCancelled
    );

    let (cancelled, _) = started.apply(Operation::Cancel).unwrap();
    assert_eq!(
        cancelled.apply(Operation::EscrowedPayment { amount: 1 }).unwrap_err(),
        TransitionError::NotActive
    );
    let (closed, _) = cancelled.apply(Operation::Withdraw { validation_data: 2000 }).unwrap();
    assert_eq!(closed.phase, EscrowPhase::Closed);
    assert_eq!(
        closed.apply(Operation::DirectPayment { amount: 1 }).unwrap_err(),
        TransitionError::NotActive
    );
}

#[test]
fn rejects_total_overflow() {
    let m = started_model();
    let (m2, _) = m.apply(Operation::EscrowedPayment { amount: u64::MAX }).unwrap();
    assert_eq!(m2.total_amount, u64::MAX);
    assert_eq!(
        m2.apply(Operation::EscrowedPayment { amount: 1 }).unwrap_err(),
        TransitionError::TotalOverflow
    );
}

#[test]
fn rejects_counter_overflow() {
    let mut m = started_model();
    for _ in 0..255 {
        let (next, _) = m.apply(Operation::EscrowedPayment { amount: 1 }).unwrap();
        m = next;
    }
    assert_eq!(m.payment_count, 255);
    assert_eq!(
        m.apply(Operation::EscrowedPayment { amount: 1 }).unwrap_err(),
        TransitionError::CounterOverflow
    );
    // A direct payment is still accepted: it does not touch the counter.
    let (m2, _) = m.apply(Operation::DirectPayment { amount: 1 }).unwrap();
    assert_eq!(m2.payment_count, 255);
}
