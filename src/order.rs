use vstd::prelude::*;

use crate::types::Key;

verus! {

/// Where an order stands in its lifecycle.
#[derive(Clone, Copy, Debug, PartialEq, Eq, Structural)]
pub enum OrderState {
    /// Created, collateral in escrow, no lender yet; cancellable.
    AwaitingFunding,
    /// A lender paid out the principal; to be repaid or liquidated.
    Funded,
    /// Withdrawn by the borrower before funding. Terminal.
    Cancelled,
    /// Repaid by the borrower. Terminal.
    Repaid,
    /// Collateral taken by the lender after the deadline. Terminal.
    Liquidated,
}

impl OrderState {
    /// Still counted in the market's locked buffer.
    pub open spec fn open(self) -> bool {
        self == OrderState::AwaitingFunding || self == OrderState::Funded
    }

    pub open spec fn terminal(self) -> bool {
        !self.open()
    }
}

/// `b` is `a` or a state that comes after it in the lifecycle: an order
/// awaiting funding may become anything else; a funded one repaid or
/// liquidated; a closed one stays as it is.
pub open spec fn may_follow(a: OrderState, b: OrderState) -> bool {
    a == b || a == OrderState::AwaitingFunding || (a == OrderState::Funded && (b
        == OrderState::Repaid || b == OrderState::Liquidated))
}

/// One loan request and its escrow state.
#[derive(Clone, Copy, Debug, PartialEq, Eq, Structural)]
pub struct Order {
    /// Party requesting the loan.
    pub borrower: Key,
    /// The market's shared buffer account.
    pub stablecoin_vault: Key,
    /// Mint of the collateral asset.
    pub nft_mint: Key,
    /// Escrow account holding the collateral asset.
    pub nft_vault: Key,
    pub request_amount: u64,
    pub interest: u64,
    /// Loan period in seconds, counted from funding.
    pub period: u64,
    /// Stablecoin buffer locked beside the asset.
    pub additional_collateral: u64,
    /// The lender, once the order is funded.
    pub lender: Option<Key>,
    pub created_at: u64,
    /// Time of funding; 0 until then.
    pub loan_start_time: u64,
    /// Time of repayment; 0 until then.
    pub paid_back_at: u64,
    /// Time of liquidation; 0 until then.
    pub withdrew_at: u64,
    pub state: OrderState,
}

impl Order {
    /// Awaiting funding or funded and unresolved.
    pub fn is_open(&self) -> (r: bool)
        ensures
            r == self.state.open(),
    {
        match self.state {
            OrderState::AwaitingFunding => true,
            OrderState::Funded => true,
            _ => false,
        }
    }
}

/// What an order contributes to the market's locked buffer.
pub open spec fn locked(o: Order) -> int {
    if o.state.open() {
        o.additional_collateral as int
    } else {
        0
    }
}

/// The buffer locked by all the orders of `s`.
pub open spec fn locked_sum(s: Seq<Order>) -> int
    decreases s.len(),
{
    if s.len() == 0 {
        0
    } else {
        locked_sum(s.drop_last()) + locked(s.last())
    }
}

pub proof fn lemma_locked_sum_nonneg(s: Seq<Order>)
    ensures
        locked_sum(s) >= 0,
    decreases s.len(),
{
    if s.len() > 0 {
        lemma_locked_sum_nonneg(s.drop_last());
    }
}

pub proof fn lemma_locked_sum_push(s: Seq<Order>, o: Order)
    ensures
        locked_sum(s.push(o)) == locked_sum(s) + locked(o),
{
    assert(s.push(o).drop_last() =~= s);
}

pub proof fn lemma_locked_sum_update(s: Seq<Order>, i: int, o: Order)
    requires
        0 <= i < s.len(),
    ensures
        locked_sum(s.update(i, o)) == locked_sum(s) - locked(s[i]) + locked(o),
    decreases s.len(),
{
    let t = s.update(i, o);
    if i == s.len() - 1 {
        assert(t.drop_last() =~= s.drop_last());
    } else {
        lemma_locked_sum_update(s.drop_last(), i, o);
        assert(t.drop_last() =~= s.drop_last().update(i, o));
    }
}

pub proof fn lemma_locked_sum_prefix(s: Seq<Order>, k: int)
    requires
        0 <= k <= s.len(),
    ensures
        locked_sum(s.take(k)) <= locked_sum(s),
    decreases s.len(),
{
    if k == s.len() {
        assert(s.take(k) =~= s);
    } else {
        lemma_locked_sum_prefix(s.drop_last(), k);
        assert(s.drop_last().take(k) =~= s.take(k));
    }
}

} // verus!
