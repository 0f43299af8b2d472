//! Decision logic of the funding controller: bounded retry of a fallible
//! remote faucet operation with bounded confirmation polling. The library
//! decides; the caller performs the transport work and the delays, and hands
//! back what it observed.

use vstd::prelude::*;
use crate::checks::{InvariantViolation, ViolationKind};

verus! {

/// The backoff budget of the funding controller.
#[derive(Debug, Clone, Copy, PartialEq, Eq, Structural)]
pub struct RetryPolicy {
    /// Total funding attempts before giving up.
    pub max_attempts: u8,
    /// Confirmation polls within one attempt before abandoning it.
    pub max_polls: u8,
    /// Delay between two confirmation polls, in milliseconds.
    pub poll_delay_ms: u64,
    /// Backoff before a fresh funding attempt, in milliseconds.
    pub retry_delay_ms: u64,
}

impl RetryPolicy {
    /// The standard budget: 3 attempts of up to 32 polls 500 ms apart, with
    /// a 1-second backoff between attempts.
    pub fn standard() -> (r: RetryPolicy)
        ensures
            r == (RetryPolicy {
                max_attempts: 3,
                max_polls: 32,
                poll_delay_ms: 500,
                retry_delay_ms: 1000,
            }),
    {
        RetryPolicy { max_attempts: 3, max_polls: 32, poll_delay_ms: 500, retry_delay_ms: 1000 }
    }

    /// A budget that allows at least one attempt with at least one poll.
    pub open spec fn sane(self) -> bool {
        self.max_attempts >= 1 && self.max_polls >= 1
    }
}

/// Where the funding controller stands.
#[derive(Debug, Clone, Copy, PartialEq, Eq, Structural)]
pub enum FundingPhase {
    /// A funding request is about to be, or was just, issued.
    Requesting,
    /// A request was accepted; confirmation and balance are being polled.
    Polling,
    /// The target balance was confirmed.
    Succeeded,
    /// The whole budget is exhausted.
    Failed,
}

/// The funding controller's state.
#[derive(Debug, Clone, Copy, PartialEq, Eq, Structural)]
pub struct FundingState {
    pub phase: FundingPhase,
    /// Funding attempts begun so far.
    pub attempt: u8,
    /// Confirmation polls spent within the current attempt.
    pub poll: u8,
}

/// What the caller observed from the transport.
#[derive(Debug, Clone, Copy, PartialEq, Eq, Structural)]
pub enum FundingEvent {
    /// The funding request was accepted for processing.
    RequestAccepted,
    /// The funding request failed outright.
    RequestFailed,
    /// A poll saw the request confirmed and the balance at the target.
    ConfirmedFunded,
    /// A poll saw no confirmation yet, or a balance still short.
    NotYetFunded,
}

/// What the caller must do next.
#[derive(Debug, Clone, Copy, PartialEq, Eq, Structural)]
pub enum FundingAction {
    /// Issue a funding request now.
    IssueRequest,
    /// Poll confirmation and balance now.
    Poll,
    /// Wait the given milliseconds, then poll confirmation and balance.
    PollAfterDelay { ms: u64 },
    /// Wait the given milliseconds, then issue a fresh funding request.
    RetryAfterDelay { ms: u64 },
    /// Funding reached the target balance.
    Succeed,
    /// The budget is exhausted; funding failed fatally.
    Abort,
}

/// States the controller can actually be in between events.
pub open spec fn funding_wf(s: FundingState, p: RetryPolicy) -> bool {
    &&& 1 <= s.attempt <= p.max_attempts
    &&& s.poll <= p.max_polls
    &&& (s.phase is Requesting ==> s.poll == 0)
    &&& (s.phase is Polling ==> s.poll < p.max_polls)
}

/// Which events a state can observe next.
pub open spec fn funding_accepts(s: FundingState, e: FundingEvent) -> bool {
    match s.phase {
        FundingPhase::Requesting => e is RequestAccepted || e is RequestFailed,
        FundingPhase::Polling => e is ConfirmedFunded || e is NotYetFunded,
        FundingPhase::Succeeded => false,
        FundingPhase::Failed => false,
    }
}

/// The controller's transition function: the successor state and the action
/// the caller must take. A failed request or an exhausted poll budget costs
/// one attempt; exhausting the attempts aborts.
pub open spec fn funding_next(s: FundingState, e: FundingEvent, p: RetryPolicy) -> (
    FundingState,
    FundingAction,
) {
    match e {
        FundingEvent::RequestAccepted => (
            FundingState { phase: FundingPhase::Polling, attempt: s.attempt, poll: 0 },
            FundingAction::Poll,
        ),
        FundingEvent::RequestFailed => if s.attempt < p.max_attempts {
            (
                FundingState {
                    phase: FundingPhase::Requesting,
                    attempt: (s.attempt + 1) as u8,
                    poll: 0,
                },
                FundingAction::RetryAfterDelay { ms: p.retry_delay_ms },
            )
        } else {
            (
                FundingState { phase: FundingPhase::Failed, attempt: s.attempt, poll: 0 },
                FundingAction::Abort,
            )
        },
        FundingEvent::ConfirmedFunded => (
            FundingState { phase: FundingPhase::Succeeded, attempt: s.attempt, poll: s.poll },
            FundingAction::Succeed,
        ),
        FundingEvent::NotYetFunded => if s.poll + 1 < p.max_polls {
            (
                FundingState {
                    phase: FundingPhase::Polling,
                    attempt: s.attempt,
                    poll: (s.poll + 1) as u8,
                },
                FundingAction::PollAfterDelay { ms: p.poll_delay_ms },
            )
        } else if s.attempt < p.max_attempts {
            (
                FundingState {
                    phase: FundingPhase::Requesting,
                    attempt: (s.attempt + 1) as u8,
                    poll: 0,
                },
                FundingAction::RetryAfterDelay { ms: p.retry_delay_ms },
            )
        } else {
            (
                FundingState { phase: FundingPhase::Failed, attempt: s.attempt, poll: s.poll },
                FundingAction::Abort,
            )
        },
    }
}

/// The controller's starting state: the first attempt is about to issue its
/// request.
pub fn funding_start(policy: &RetryPolicy) -> (r: (FundingState, FundingAction))
    requires
        policy.sane(),
    ensures
        r.0 == (FundingState { phase: FundingPhase::Requesting, attempt: 1, poll: 0 }),
        r.1 is IssueRequest,
        funding_wf(r.0, *policy),
{
    (
        FundingState { phase: FundingPhase::Requesting, attempt: 1, poll: 0 },
        FundingAction::IssueRequest,
    )
}

/// Feeds one observed event to the controller and returns the successor
/// state and the next action. Well-formedness of the state is preserved, and
/// the action is `Abort` exactly when the budget is exhausted.
pub fn funding_step(s: &FundingState, e: FundingEvent, policy: &RetryPolicy) -> (r: (
    FundingState,
    FundingAction,
))
    requires
        policy.sane(),
        funding_wf(*s, *policy),
        funding_accepts(*s, e),
    ensures
        r == funding_next(*s, e, *policy),
        funding_wf(r.0, *policy),
        r.1 is Abort <==> r.0.phase is Failed,
        r.1 is Succeed <==> r.0.phase is Succeeded,
{
    match e {
        FundingEvent::RequestAccepted => (
            FundingState { phase: FundingPhase::Polling, attempt: s.attempt, poll: 0 },
            FundingAction::Poll,
        ),
        FundingEvent::RequestFailed => if s.attempt < policy.max_attempts {
            (
                FundingState { phase: FundingPhase::Requesting, attempt: s.attempt + 1, poll: 0 },
                FundingAction::RetryAfterDelay { ms: policy.retry_delay_ms },
            )
        } else {
            (
                FundingState { phase: FundingPhase::Failed, attempt: s.attempt, poll: 0 },
                FundingAction::Abort,
            )
        },
        FundingEvent::ConfirmedFunded => (
            FundingState { phase: FundingPhase::Succeeded, attempt: s.attempt, poll: s.poll },
            FundingAction::Succeed,
        ),
        FundingEvent::NotYetFunded => if s.poll + 1 < policy.max_polls {
            (
                FundingState { phase: FundingPhase::Polling, attempt: s.attempt, poll: s.poll + 1 },
                FundingAction::PollAfterDelay { ms: policy.poll_delay_ms },
            )
        } else if s.attempt < policy.max_attempts {
            (
                FundingState { phase: FundingPhase::Requesting, attempt: s.attempt + 1, poll: 0 },
                FundingAction::RetryAfterDelay { ms: policy.retry_delay_ms },
            )
        } else {
            (
                FundingState { phase: FundingPhase::Failed, attempt: s.attempt, poll: s.poll },
                FundingAction::Abort,
            )
        },
    }
}

/// Work left in the budget: attempts not yet begun, polls not yet spent in
/// the current attempt, and the current attempt's request if it is still
/// pending.
pub open spec fn funding_measure(s: FundingState, p: RetryPolicy) -> int {
    (p.max_attempts - s.attempt) * (p.max_polls + 2) + (p.max_polls - s.poll) + (
    if s.phase is Requesting {
        1int
    } else {
        0int
    })
}

/// Law: every step either finishes (succeeds or aborts) or strictly shrinks
/// the remaining budget, so the controller always terminates.
pub proof fn lemma_funding_step_terminates(s: FundingState, e: FundingEvent, p: RetryPolicy)
    requires
        p.sane(),
        funding_wf(s, p),
        funding_accepts(s, e),
    ensures
        ({
            let (s2, action) = funding_next(s, e, p);
            action is Succeed || action is Abort || funding_measure(s2, p) < funding_measure(s, p)
        }),
{
    let (s2, action) = funding_next(s, e, p);
    if !(action is Succeed) && !(action is Abort) && s2.attempt == s.attempt + 1 {
        let blocks = p.max_polls + 2;
        assert((p.max_attempts - s2.attempt) * blocks == (p.max_attempts - s.attempt) * blocks
            - blocks) by (nonlinear_arith)
            requires
                s2.attempt == s.attempt + 1,
                blocks == p.max_polls + 2,
        ;
    }
}

/// The funding setup is complete once both parties hold at least the minimum
/// balance every later scenario relies on.
pub open spec fn funding_complete(buyer_balance: u64, seller_balance: u64, minimum: u64) -> bool {
    buyer_balance >= minimum && seller_balance >= minimum
}

/// Checks the final balances after funding both parties: each must hold at
/// least the minimum, a hard precondition of every scenario.
pub fn check_funding_complete(buyer_balance: u64, seller_balance: u64, minimum: u64) -> (r: Result<
    (),
    InvariantViolation,
>)
    ensures
        r is Ok <==> funding_complete(buyer_balance, seller_balance, minimum),
        (r matches Err(v) ==> v == (if buyer_balance < minimum {
            InvariantViolation {
                kind: ViolationKind::BuyerDelta,
                expected: minimum,
                actual: buyer_balance,
                tolerance: 0,
            }
        } else {
            InvariantViolation {
                kind: ViolationKind::SellerDelta,
                expected: minimum,
                actual: seller_balance,
                tolerance: 0,
            }
        })),
{
    if buyer_balance < minimum {
        return Err(
            InvariantViolation {
                kind: ViolationKind::BuyerDelta,
                expected: minimum,
                actual: buyer_balance,
                tolerance: 0,
            },
        );
    }
    if seller_balance < minimum {
        return Err(
            InvariantViolation {
                kind: ViolationKind::SellerDelta,
                expected: minimum,
                actual: seller_balance,
                tolerance: 0,
            },
        );
    }
    Ok(())
}

} // verus!
