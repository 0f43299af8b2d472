//! The harness's configuration: the remote program's address, starting
//! balances, the validation threshold, and the tolerance bands, gathered in
//! one value passed in at construction.

use vstd::prelude::*;
use crate::address::Address;
use crate::LAMPORTS_PER_SOL;

verus! {

/// Configuration of one harness run.
pub struct HarnessConfig {
    /// Address of the remote escrow program.
    pub program_id: Address,
    /// Balance requested for the buyer up front.
    pub buyer_initial_balance: u64,
    /// Balance requested for the seller up front.
    pub seller_initial_balance: u64,
    /// Minimum balance each party must hold once funding is done.
    pub min_funded_balance: u64,
    /// Validation threshold handed to `start_subscription`.
    pub default_validation_threshold: u64,
    /// Amount of one payment, escrowed or direct.
    pub payment_amount: u64,
    /// Tolerance band for payment-sized deltas.
    pub payment_tolerance: u64,
    /// Tolerance band for withdrawal-sized deltas: 1% of one whole unit.
    pub withdrawal_tolerance: u64,
}

impl HarnessConfig {
    /// The standard run: the buyer starts with 10 units and the seller with
    /// 1, both must end funding with at least 1, payments move 1 unit, and
    /// the bands are 10,000 base units for payments and 1% of a unit for
    /// withdrawals.
    pub fn standard(program_id: Address) -> (r: HarnessConfig)
        ensures
            r.program_id@ == program_id@,
            r.buyer_initial_balance == 10 * LAMPORTS_PER_SOL,
            r.seller_initial_balance == LAMPORTS_PER_SOL,
            r.min_funded_balance == LAMPORTS_PER_SOL,
            r.default_validation_threshold == 1000,
            r.payment_amount == LAMPORTS_PER_SOL,
            r.payment_tolerance == 10000,
            r.withdrawal_tolerance == LAMPORTS_PER_SOL / 100,
    {
        HarnessConfig {
            program_id,
            buyer_initial_balance: 10 * LAMPORTS_PER_SOL,
            seller_initial_balance: LAMPORTS_PER_SOL,
            min_funded_balance: LAMPORTS_PER_SOL,
            default_validation_threshold: 1000,
            payment_amount: LAMPORTS_PER_SOL,
            payment_tolerance: 10000,
            withdrawal_tolerance: LAMPORTS_PER_SOL / 100,
        }
    }
}

} // verus!
