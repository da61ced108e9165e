use vstd::prelude::*;

use crate::market::{CancelOrder, GiveLoan, Liquidate, Market, Payback};
use crate::order::{may_follow, OrderState};
use crate::types::ErrorCode;

verus! {

/// Orders only move forward through any sequence of operations: if
/// `m1` evolves to `m2` and `m2` to `m3`, then `m1` evolves to `m3`.
pub proof fn lemma_evolves_to_transitive(m1: &Market, m2: &Market, m3: &Market)
    requires
        m1.evolves_to(m2),
        m2.evolves_to(m3),
    ensures
        m1.evolves_to(m3),
{
    assert forall|i: int| 0 <= i < m1.orders@.len() implies may_follow(
        #[trigger] m1.orders@[i].state,
        m3.orders@[i].state,
    ) by {
        assert(may_follow(m1.orders@[i].state, m2.orders@[i].state));
        assert(may_follow(m2.orders@[i].state, m3.orders@[i].state));
    }
}

/// State exclusivity: an order reaches at most one of the closed states
/// (cancelled, repaid, liquidated), and once there it stays there.
pub proof fn lemma_closed_stays_closed(m1: &Market, m2: &Market, i: int)
    requires
        m1.evolves_to(m2),
        0 <= i < m1.orders@.len(),
        m1.orders@[i].state.terminal(),
    ensures
        m2.orders@[i].state == m1.orders@[i].state,
{
    assert(may_follow(m1.orders@[i].state, m2.orders@[i].state));
}

/// Deadline boundary: on a funded order with valid accounts and no overflow,
/// repayment succeeds exactly when `now` is at most the deadline
/// (funding time plus period) and liquidation exactly when `now` is past it;
/// so exactly one of the two is possible at any instant.
pub proof fn lemma_deadline_boundary(m: &Market, pay: Payback, liq: Liquidate, id: u64, now: u64)
    requires
        id < m.orders@.len(),
        m.orders@[id as int].state == OrderState::Funded,
        Market::deadline(m.orders@[id as int]) <= u64::MAX,
        m.orders@[id as int].request_amount + m.orders@[id as int].interest <= u64::MAX,
        m.payback_accounts_ok(pay, m.orders@[id as int]),
        m.liquidate_accounts_ok(liq, m.orders@[id as int]),
    ensures
        (m.payback_error(pay, id, now) is None) == (now <= Market::deadline(m.orders@[id as int])),
        (m.liquidate_error(liq, id, now) is None) == (now > Market::deadline(m.orders@[id as int])),
        (m.payback_error(pay, id, now) is None) != (m.liquidate_error(liq, id, now) is None),
{
}

/// Double actions are rejected: an order that left `AwaitingFunding` can be
/// neither funded nor cancelled again, a liquidated order cannot be
/// liquidated again (with its own error), and only a funded order can be
/// repaid.
pub proof fn lemma_double_action_rejected(
    m: &Market,
    give: GiveLoan,
    cancel: CancelOrder,
    pay: Payback,
    liq: Liquidate,
    id: u64,
    now: u64,
)
    requires
        id < m.orders@.len(),
    ensures
        m.orders@[id as int].state != OrderState::AwaitingFunding ==> m.give_loan_error(give, id)
            == Some(ErrorCode::LoanAlreadyStarted),
        m.orders@[id as int].state != OrderState::AwaitingFunding ==> m.cancel_error(cancel, id)
            == Some(ErrorCode::LoanAlreadyStarted),
        m.orders@[id as int].state != OrderState::Funded ==> m.payback_error(pay, id, now)
            == Some(ErrorCode::LoanNotProvided),
        m.orders@[id as int].state == OrderState::Liquidated ==> m.liquidate_error(liq, id, now)
            == Some(ErrorCode::AlreadyLiquidated),
{
}

} // verus!
