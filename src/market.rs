use vstd::prelude::*;

use crate::order::{
    lemma_locked_sum_nonneg, lemma_locked_sum_prefix, lemma_locked_sum_push, lemma_locked_sum_update, locked, locked_sum,
    may_follow, Order, OrderState,
};
use crate::types::{
    check_holds, holds, is_unique_asset, Authority, ErrorCode, Key, Mint, TokenAccount, Transfer,
};

verus! {

/// The record of one stablecoin market.
#[derive(Clone, Copy, Debug, PartialEq, Eq, Structural)]
pub struct Configuration {
    /// Mint of the lending currency.
    pub stablecoin_mint: Key,
    /// Shared account holding the buffers of all open orders.
    pub stablecoin_vault: Key,
    /// Number of orders created so far; the id of the next one.
    pub order_id: u64,
    /// Sum of the buffers of all open orders.
    pub total_additional_collateral: u64,
    /// Protocol fee, in percent.
    pub fee_pt: u8,
}

/// Accounts of a market's creation.
#[derive(Clone, Copy, Debug, PartialEq, Eq, Structural)]
pub struct Initialize {
    pub signer: Key,
    pub stablecoin_mint: Key,
    /// The shared buffer account provisioned for the market.
    pub stablecoin_vault: Key,
}

/// Accounts of an order's creation; the borrower signs.
#[derive(Clone, Copy, Debug, PartialEq, Eq, Structural)]
pub struct CreateOrder {
    pub signer: Key,
    /// Borrower's stablecoin account that pays the buffer.
    pub user_stablecoin_vault: TokenAccount,
    pub nft_mint: Mint,
    /// Borrower's account holding the collateral asset.
    pub user_nft_vault: TokenAccount,
    /// Escrow account provisioned for the collateral asset.
    pub nft_vault: Key,
}

/// Accounts of a cancellation; the borrower signs.
#[derive(Clone, Copy, Debug, PartialEq, Eq, Structural)]
pub struct CancelOrder {
    pub signer: Key,
    pub user_stablecoin_vault: TokenAccount,
    pub nft_vault: Key,
    pub user_nft_vault: TokenAccount,
}

/// Accounts of a funding; the lender signs.
#[derive(Clone, Copy, Debug, PartialEq, Eq, Structural)]
pub struct GiveLoan {
    pub signer: Key,
    pub lender_stablecoin_vault: TokenAccount,
    pub borrower_stablecoin_vault: TokenAccount,
}

/// Accounts of a repayment; the borrower signs.
#[derive(Clone, Copy, Debug, PartialEq, Eq, Structural)]
pub struct Payback {
    pub signer: Key,
    pub lender_stablecoin_vault: TokenAccount,
    pub user_stablecoin_vault: TokenAccount,
    pub nft_vault: Key,
    pub user_nft_vault: TokenAccount,
}

/// Accounts of a liquidation; the lender signs.
#[derive(Clone, Copy, Debug, PartialEq, Eq, Structural)]
pub struct Liquidate {
    pub signer: Key,
    pub lender_stablecoin_vault: TokenAccount,
    pub nft_vault: Key,
    pub user_nft_vault: TokenAccount,
}

/// A stablecoin market and all the orders ever created in it, indexed by id.
/// Closed orders stay, in a terminal state.
pub struct Market {
    pub config: Configuration,
    pub orders: Vec<Order>,
}

pub open spec fn transfer(
    mint: Key,
    from: Key,
    to: Key,
    authority: Authority,
    amount: u64,
) -> Transfer {
    Transfer { mint, from, to, authority, amount }
}

impl Market {
    /// The order counter matches the orders, each order names the market's
    /// buffer account, and the locked total is the sum of the buffers of the
    /// open orders.
    pub open spec fn wf(&self) -> bool {
        &&& self.config.order_id as int == self.orders@.len()
        &&& self.config.total_additional_collateral as int == locked_sum(self.orders@)
        &&& forall|i: int|
            0 <= i < self.orders@.len() ==> (#[trigger] self.orders@[i]).stablecoin_vault
                == self.config.stablecoin_vault
    }

    /// No order was dropped, each kept its state or moved on in the lifecycle,
    /// and the market's identity and fee did not change.
    pub open spec fn evolves_to(&self, next: &Market) -> bool {
        &&& next.config.stablecoin_mint == self.config.stablecoin_mint
        &&& next.config.stablecoin_vault == self.config.stablecoin_vault
        &&& next.config.fee_pt == self.config.fee_pt
        &&& self.orders@.len() <= next.orders@.len()
        &&& forall|i: int|
            0 <= i < self.orders@.len() ==> may_follow(
                #[trigger] self.orders@[i].state,
                next.orders@[i].state,
            )
    }

    /// Tests `wf`, for a market read back from storage.
    pub fn is_well_formed(&self) -> (r: bool)
        ensures
            r == self.wf(),
    {
        let n: usize = self.orders.len();
        if self.config.order_id != n as u64 {
            return false;
        }
        let mut sum: u64 = 0;
        let mut i: usize = 0;
        while i < n
            invariant
                n == self.orders@.len(),
                i <= n,
                sum as int == locked_sum(self.orders@.take(i as int)),
                forall|j: int|
                    0 <= j < i ==> (#[trigger] self.orders@[j]).stablecoin_vault
                        == self.config.stablecoin_vault,
            decreases n - i,
        {
            let o = &self.orders[i];
            proof {
                assert(self.orders@.take(i + 1).drop_last() =~= self.orders@.take(i as int));
            }
            if o.stablecoin_vault != self.config.stablecoin_vault {
                return false;
            }
            if o.is_open() {
                match sum.checked_add(o.additional_collateral) {
                    Some(s) => {
                        sum = s;
                    },
                    None => {
                        proof {
                            lemma_locked_sum_prefix(self.orders@, i + 1);
                        }
                        return false;
                    },
                }
            }
            i = i + 1;
        }
        proof {
            assert(self.orders@.take(n as int) =~= self.orders@);
        }
        sum == self.config.total_additional_collateral
    }

    /// A market with no order, as `initialize` records it.
    pub fn new(ctx: &Initialize, fee_pt: u8) -> (m: Market)
        ensures
            m.wf(),
            m.config == (Configuration {
                stablecoin_mint: ctx.stablecoin_mint,
                stablecoin_vault: ctx.stablecoin_vault,
                order_id: 0,
                total_additional_collateral: 0,
                fee_pt,
            }),
            m.orders@.len() == 0,
    {
        Market {
            config: Configuration {
                stablecoin_mint: ctx.stablecoin_mint,
                stablecoin_vault: ctx.stablecoin_vault,
                order_id: 0,
                total_additional_collateral: 0,
                fee_pt,
            },
            orders: Vec::new(),
        }
    }

    pub open spec fn create_accounts_ok(&self, ctx: CreateOrder) -> bool {
        &&& holds(ctx.user_stablecoin_vault, self.config.stablecoin_mint, ctx.signer)
        &&& is_unique_asset(ctx.nft_mint)
        &&& holds(ctx.user_nft_vault, ctx.nft_mint.key, ctx.signer)
    }

    pub open spec fn create_order_error(
        &self,
        ctx: CreateOrder,
        request_amount: u64,
        additional_collateral: u64,
    ) -> Option<ErrorCode> {
        if request_amount == 0 {
            Some(ErrorCode::AmountMustBeGreaterThanZero)
        } else if !self.create_accounts_ok(ctx) {
            Some(ErrorCode::InvalidAccount)
        } else if self.config.total_additional_collateral + additional_collateral > u64::MAX
            || self.config.order_id == u64::MAX {
            Some(ErrorCode::ArithmeticOverflow)
        } else {
            None
        }
    }

    /// The order that a successful `create_order` records.
    pub open spec fn opened_order(
        &self,
        ctx: CreateOrder,
        request_amount: u64,
        interest: u64,
        period: u64,
        additional_collateral: u64,
        now: u64,
    ) -> Order {
        Order {
            borrower: ctx.signer,
            stablecoin_vault: self.config.stablecoin_vault,
            nft_mint: ctx.nft_mint.key,
            nft_vault: ctx.nft_vault,
            request_amount,
            interest,
            period,
            additional_collateral,
            lender: None,
            created_at: now,
            loan_start_time: 0,
            paid_back_at: 0,
            withdrew_at: 0,
            state: OrderState::AwaitingFunding,
        }
    }

    /// Replaces order `id` by `next`, which keeps its buffer and leaves the
    /// open states; the buffer leaves the locked total.
    fn close_order(&mut self, id: usize, next: Order)
        requires
            old(self).wf(),
            id < old(self).orders@.len(),
            old(self).orders@[id as int].state.open(),
            !next.state.open(),
            next.additional_collateral == old(self).orders@[id as int].additional_collateral,
            next.stablecoin_vault == old(self).orders@[id as int].stablecoin_vault,
        ensures
            final(self).wf(),
            final(self).config == (Configuration {
                total_additional_collateral: (old(self).config.total_additional_collateral
                    - next.additional_collateral) as u64,
                ..old(self).config
            }),
            final(self).orders@ == old(self).orders@.update(id as int, next),
    {
        proof {
            lemma_locked_sum_update(self.orders@, id as int, next);
            lemma_locked_sum_nonneg(self.orders@.update(id as int, next));
        }
        self.config.total_additional_collateral = self.config.total_additional_collateral
            - next.additional_collateral;
        self.orders.set(id, next);
    }

    pub open spec fn cancel_error(&self, ctx: CancelOrder, id: u64) -> Option<ErrorCode> {
        if id >= self.orders@.len() {
            Some(ErrorCode::UnknownOrder)
        } else {
            let o = self.orders@[id as int];
            if o.state != OrderState::AwaitingFunding {
                Some(ErrorCode::LoanAlreadyStarted)
            } else if !(ctx.signer == o.borrower && holds(
                ctx.user_stablecoin_vault,
                self.config.stablecoin_mint,
                o.borrower,
            ) && ctx.nft_vault == o.nft_vault && holds(ctx.user_nft_vault, o.nft_mint, o.borrower)) {
                Some(ErrorCode::InvalidAccount)
            } else {
                None
            }
        }
    }

    pub open spec fn give_loan_error(&self, ctx: GiveLoan, id: u64) -> Option<ErrorCode> {
        if id >= self.orders@.len() {
            Some(ErrorCode::UnknownOrder)
        } else {
            let o = self.orders@[id as int];
            if o.state != OrderState::AwaitingFunding {
                Some(ErrorCode::LoanAlreadyStarted)
            } else if !(holds(ctx.lender_stablecoin_vault, self.config.stablecoin_mint, ctx.signer)
                && holds(ctx.borrower_stablecoin_vault, self.config.stablecoin_mint, o.borrower)) {
                Some(ErrorCode::InvalidAccount)
            } else {
                None
            }
        }
    }

    /// Last instant at which order `o` may be repaid.
    pub open spec fn deadline(o: Order) -> int {
        o.loan_start_time + o.period
    }

    /// The borrower signs, pays from and receives into their own accounts, and
    /// pays the order's lender; the escrow account is the order's.
    pub open spec fn payback_accounts_ok(&self, ctx: Payback, o: Order) -> bool {
        &&& ctx.signer == o.borrower
        &&& holds(ctx.user_stablecoin_vault, self.config.stablecoin_mint, o.borrower)
        &&& o.lender == Some(ctx.lender_stablecoin_vault.owner)
        &&& ctx.lender_stablecoin_vault.mint == self.config.stablecoin_mint
        &&& ctx.nft_vault == o.nft_vault
        &&& holds(ctx.user_nft_vault, o.nft_mint, o.borrower)
    }

    /// The order's lender signs and receives into their own accounts; the
    /// escrow account is the order's.
    pub open spec fn liquidate_accounts_ok(&self, ctx: Liquidate, o: Order) -> bool {
        &&& o.lender == Some(ctx.signer)
        &&& holds(ctx.lender_stablecoin_vault, self.config.stablecoin_mint, ctx.signer)
        &&& ctx.nft_vault == o.nft_vault
        &&& holds(ctx.user_nft_vault, o.nft_mint, ctx.signer)
    }

    pub open spec fn payback_error(&self, ctx: Payback, id: u64, now: u64) -> Option<ErrorCode> {
        if id >= self.orders@.len() {
            Some(ErrorCode::UnknownOrder)
        } else {
            let o = self.orders@[id as int];
            if o.state != OrderState::Funded {
                Some(ErrorCode::LoanNotProvided)
            } else if Self::deadline(o) > u64::MAX {
                Some(ErrorCode::ArithmeticOverflow)
            } else if Self::deadline(o) < now {
                Some(ErrorCode::RepaymentPeriodExceeded)
            } else if !self.payback_accounts_ok(ctx, o) {
                Some(ErrorCode::InvalidAccount)
            } else if o.request_amount + o.interest > u64::MAX {
                Some(ErrorCode::ArithmeticOverflow)
            } else {
                None
            }
        }
    }

    pub open spec fn liquidate_error(&self, ctx: Liquidate, id: u64, now: u64) -> Option<
        ErrorCode,
    > {
        if id >= self.orders@.len() {
            Some(ErrorCode::UnknownOrder)
        } else {
            let o = self.orders@[id as int];
            if o.state == OrderState::Liquidated {
                Some(ErrorCode::AlreadyLiquidated)
            } else if o.state != OrderState::Funded {
                Some(ErrorCode::LoanNotProvided)
            } else if Self::deadline(o) > u64::MAX {
                Some(ErrorCode::ArithmeticOverflow)
            } else if Self::deadline(o) >= now {
                Some(ErrorCode::RepaymentPeriodNotExceeded)
            } else if !self.liquidate_accounts_ok(ctx, o) {
                Some(ErrorCode::InvalidAccount)
            } else {
                None
            }
        }
    }

}

/// Opens an order with id `config.order_id` that asks `request_amount`
/// for `period` seconds against the asset of `ctx.nft_mint` and a buffer
/// of `additional_collateral`. Returns the transfers that move the asset
/// and the buffer into escrow, both signed by the borrower.
pub fn create_order(
    market: &mut Market,
    ctx: &CreateOrder,
    request_amount: u64,
    interest: u64,
    period: u64,
    additional_collateral: u64,
    now: u64,
) -> (r: Result<Vec<Transfer>, ErrorCode>)
    requires
        old(market).wf(),
    ensures
        final(market).wf(),
        old(market).evolves_to(&*final(market)),
        match r {
            Ok(plan) => {
                &&& old(market).create_order_error(*ctx, request_amount, additional_collateral)
                    is None
                &&& final(market).config == (Configuration {
                    order_id: (old(market).config.order_id + 1) as u64,
                    total_additional_collateral: (old(market).config.total_additional_collateral
                        + additional_collateral) as u64,
                    ..old(market).config
                })
                &&& final(market).orders@ == old(market).orders@.push(
                    old(market).opened_order(
                        *ctx,
                        request_amount,
                        interest,
                        period,
                        additional_collateral,
                        now,
                    ),
                )
                &&& plan@ == seq![
                    transfer(
                        ctx.nft_mint.key,
                        ctx.user_nft_vault.key,
                        ctx.nft_vault,
                        Authority::Signer(ctx.signer),
                        1,
                    ),
                    transfer(
                        old(market).config.stablecoin_mint,
                        ctx.user_stablecoin_vault.key,
                        old(market).config.stablecoin_vault,
                        Authority::Signer(ctx.signer),
                        additional_collateral,
                    ),
                ]
            },
            Err(e) => {
                &&& old(market).create_order_error(*ctx, request_amount, additional_collateral)
                    == Some(e)
                &&& *final(market) == *old(market)
            },
        },
{
    if request_amount == 0 {
        return Err(ErrorCode::AmountMustBeGreaterThanZero);
    }
    if !(check_holds(&ctx.user_stablecoin_vault, market.config.stablecoin_mint, ctx.signer)
        && ctx.nft_mint.supply == 1 && ctx.nft_mint.decimals == 0 && check_holds(
        &ctx.user_nft_vault,
        ctx.nft_mint.key,
        ctx.signer,
    )) {
        return Err(ErrorCode::InvalidAccount);
    }
    let total = match market.config.total_additional_collateral.checked_add(
        additional_collateral,
    ) {
        Some(t) => t,
        None => return Err(ErrorCode::ArithmeticOverflow),
    };
    let next_id = match market.config.order_id.checked_add(1) {
        Some(n) => n,
        None => return Err(ErrorCode::ArithmeticOverflow),
    };
    let order = Order {
        borrower: ctx.signer,
        stablecoin_vault: market.config.stablecoin_vault,
        nft_mint: ctx.nft_mint.key,
        nft_vault: ctx.nft_vault,
        request_amount,
        interest,
        period,
        additional_collateral,
        lender: None,
        created_at: now,
        loan_start_time: 0,
        paid_back_at: 0,
        withdrew_at: 0,
        state: OrderState::AwaitingFunding,
    };
    proof {
        lemma_locked_sum_push(market.orders@, order);
    }
    market.orders.push(order);
    market.config.total_additional_collateral = total;
    market.config.order_id = next_id;
    let mut plan: Vec<Transfer> = Vec::new();
    plan.push(
        Transfer {
            mint: ctx.nft_mint.key,
            from: ctx.user_nft_vault.key,
            to: ctx.nft_vault,
            authority: Authority::Signer(ctx.signer),
            amount: 1,
        },
    );
    plan.push(
        Transfer {
            mint: market.config.stablecoin_mint,
            from: ctx.user_stablecoin_vault.key,
            to: market.config.stablecoin_vault,
            authority: Authority::Signer(ctx.signer),
            amount: additional_collateral,
        },
    );
    Ok(plan)
}

/// Withdraws order `id` before it is funded. Returns the transfers, signed
/// by the escrow accounts, that give the asset and the buffer back to the
/// borrower.
pub fn cancel_order(market: &mut Market, ctx: &CancelOrder, id: u64) -> (r: Result<
    Vec<Transfer>,
    ErrorCode,
>)
    requires
        old(market).wf(),
    ensures
        final(market).wf(),
        old(market).evolves_to(&*final(market)),
        match r {
            Ok(plan) => {
                let o = old(market).orders@[id as int];
                &&& old(market).cancel_error(*ctx, id) is None
                &&& final(market).config == (Configuration {
                    total_additional_collateral: (old(market).config.total_additional_collateral
                        - o.additional_collateral) as u64,
                    ..old(market).config
                })
                &&& final(market).orders@ == old(market).orders@.update(
                    id as int,
                    Order { state: OrderState::Cancelled, ..o },
                )
                &&& plan@ == seq![
                    transfer(
                        o.nft_mint,
                        o.nft_vault,
                        ctx.user_nft_vault.key,
                        Authority::Escrow(o.nft_vault),
                        1,
                    ),
                    transfer(
                        old(market).config.stablecoin_mint,
                        old(market).config.stablecoin_vault,
                        ctx.user_stablecoin_vault.key,
                        Authority::Escrow(old(market).config.stablecoin_vault),
                        o.additional_collateral,
                    ),
                ]
            },
            Err(e) => {
                &&& old(market).cancel_error(*ctx, id) == Some(e)
                &&& *final(market) == *old(market)
            },
        },
{
    proof {
        assert(market.orders@.len() == market.orders.len());
    }
    if id >= market.config.order_id {
        return Err(ErrorCode::UnknownOrder);
    }
    let i = id as usize;
    let o = market.orders[i];
    match o.state {
        OrderState::AwaitingFunding => {},
        _ => return Err(ErrorCode::LoanAlreadyStarted),
    }
    if !(ctx.signer == o.borrower && check_holds(
        &ctx.user_stablecoin_vault,
        market.config.stablecoin_mint,
        o.borrower,
    ) && ctx.nft_vault == o.nft_vault && check_holds(
        &ctx.user_nft_vault,
        o.nft_mint,
        o.borrower,
    )) {
        return Err(ErrorCode::InvalidAccount);
    }
    market.close_order(i, Order { state: OrderState::Cancelled, ..o });
    let mut plan: Vec<Transfer> = Vec::new();
    plan.push(
        Transfer {
            mint: o.nft_mint,
            from: o.nft_vault,
            to: ctx.user_nft_vault.key,
            authority: Authority::Escrow(o.nft_vault),
            amount: 1,
        },
    );
    plan.push(
        Transfer {
            mint: market.config.stablecoin_mint,
            from: market.config.stablecoin_vault,
            to: ctx.user_stablecoin_vault.key,
            authority: Authority::Escrow(market.config.stablecoin_vault),
            amount: o.additional_collateral,
        },
    );
    Ok(plan)
}

/// Funds order `id`: the signer becomes its lender and the loan starts at
/// `now`. Returns the transfer of the principal from the lender to the
/// borrower, signed by the lender.
pub fn give_loan(market: &mut Market, ctx: &GiveLoan, id: u64, now: u64) -> (r: Result<
    Vec<Transfer>,
    ErrorCode,
>)
    requires
        old(market).wf(),
    ensures
        final(market).wf(),
        old(market).evolves_to(&*final(market)),
        match r {
            Ok(plan) => {
                let o = old(market).orders@[id as int];
                &&& old(market).give_loan_error(*ctx, id) is None
                &&& final(market).config == old(market).config
                &&& final(market).orders@ == old(market).orders@.update(
                    id as int,
                    Order {
                        lender: Some(ctx.signer),
                        loan_start_time: now,
                        state: OrderState::Funded,
                        ..o
                    },
                )
                &&& plan@ == seq![
                    transfer(
                        old(market).config.stablecoin_mint,
                        ctx.lender_stablecoin_vault.key,
                        ctx.borrower_stablecoin_vault.key,
                        Authority::Signer(ctx.signer),
                        o.request_amount,
                    ),
                ]
            },
            Err(e) => {
                &&& old(market).give_loan_error(*ctx, id) == Some(e)
                &&& *final(market) == *old(market)
            },
        },
{
    proof {
        assert(market.orders@.len() == market.orders.len());
    }
    if id >= market.config.order_id {
        return Err(ErrorCode::UnknownOrder);
    }
    let i = id as usize;
    let o = market.orders[i];
    match o.state {
        OrderState::AwaitingFunding => {},
        _ => return Err(ErrorCode::LoanAlreadyStarted),
    }
    if !(check_holds(&ctx.lender_stablecoin_vault, market.config.stablecoin_mint, ctx.signer)
        && check_holds(&ctx.borrower_stablecoin_vault, market.config.stablecoin_mint, o.borrower)) {
        return Err(ErrorCode::InvalidAccount);
    }
    let next = Order {
        lender: Some(ctx.signer),
        loan_start_time: now,
        state: OrderState::Funded,
        ..o
    };
    proof {
        lemma_locked_sum_update(market.orders@, i as int, next);
    }
    market.orders.set(i, next);
    let mut plan: Vec<Transfer> = Vec::new();
    plan.push(
        Transfer {
            mint: market.config.stablecoin_mint,
            from: ctx.lender_stablecoin_vault.key,
            to: ctx.borrower_stablecoin_vault.key,
            authority: Authority::Signer(ctx.signer),
            amount: o.request_amount,
        },
    );
    Ok(plan)
}

/// Repays order `id` at `now`. Returns the transfers of principal plus
/// interest from the borrower to the lender (signed by the borrower), then
/// of the asset and the buffer from escrow back to the borrower (signed by
/// the escrow accounts).
pub fn payback(market: &mut Market, ctx: &Payback, id: u64, now: u64) -> (r: Result<
    Vec<Transfer>,
    ErrorCode,
>)
    requires
        old(market).wf(),
    ensures
        final(market).wf(),
        old(market).evolves_to(&*final(market)),
        match r {
            Ok(plan) => {
                let o = old(market).orders@[id as int];
                &&& old(market).payback_error(*ctx, id, now) is None
                &&& final(market).config == (Configuration {
                    total_additional_collateral: (old(market).config.total_additional_collateral
                        - o.additional_collateral) as u64,
                    ..old(market).config
                })
                &&& final(market).orders@ == old(market).orders@.update(
                    id as int,
                    Order { paid_back_at: now, state: OrderState::Repaid, ..o },
                )
                &&& plan@ == seq![
                    transfer(
                        old(market).config.stablecoin_mint,
                        ctx.user_stablecoin_vault.key,
                        ctx.lender_stablecoin_vault.key,
                        Authority::Signer(ctx.signer),
                        (o.request_amount + o.interest) as u64,
                    ),
                    transfer(
                        o.nft_mint,
                        o.nft_vault,
                        ctx.user_nft_vault.key,
                        Authority::Escrow(o.nft_vault),
                        1,
                    ),
                    transfer(
                        old(market).config.stablecoin_mint,
                        old(market).config.stablecoin_vault,
                        ctx.user_stablecoin_vault.key,
                        Authority::Escrow(old(market).config.stablecoin_vault),
                        o.additional_collateral,
                    ),
                ]
            },
            Err(e) => {
                &&& old(market).payback_error(*ctx, id, now) == Some(e)
                &&& *final(market) == *old(market)
            },
        },
{
    proof {
        assert(market.orders@.len() == market.orders.len());
    }
    if id >= market.config.order_id {
        return Err(ErrorCode::UnknownOrder);
    }
    let i = id as usize;
    let o = market.orders[i];
    match o.state {
        OrderState::Funded => {},
        _ => return Err(ErrorCode::LoanNotProvided),
    }
    let deadline = match o.loan_start_time.checked_add(o.period) {
        Some(d) => d,
        None => return Err(ErrorCode::ArithmeticOverflow),
    };
    if deadline < now {
        return Err(ErrorCode::RepaymentPeriodExceeded);
    }
    if !(ctx.signer == o.borrower && check_holds(
        &ctx.user_stablecoin_vault,
        market.config.stablecoin_mint,
        o.borrower,
    ) && o.lender == Some(ctx.lender_stablecoin_vault.owner)
        && ctx.lender_stablecoin_vault.mint == market.config.stablecoin_mint && ctx.nft_vault
        == o.nft_vault && check_holds(&ctx.user_nft_vault, o.nft_mint, o.borrower)) {
        return Err(ErrorCode::InvalidAccount);
    }
    let owed = match o.request_amount.checked_add(o.interest) {
        Some(a) => a,
        None => return Err(ErrorCode::ArithmeticOverflow),
    };
    market.close_order(i, Order { paid_back_at: now, state: OrderState::Repaid, ..o });
    let mut plan: Vec<Transfer> = Vec::new();
    plan.push(
        Transfer {
            mint: market.config.stablecoin_mint,
            from: ctx.user_stablecoin_vault.key,
            to: ctx.lender_stablecoin_vault.key,
            authority: Authority::Signer(ctx.signer),
            amount: owed,
        },
    );
    plan.push(
        Transfer {
            mint: o.nft_mint,
            from: o.nft_vault,
            to: ctx.user_nft_vault.key,
            authority: Authority::Escrow(o.nft_vault),
            amount: 1,
        },
    );
    plan.push(
        Transfer {
            mint: market.config.stablecoin_mint,
            from: market.config.stablecoin_vault,
            to: ctx.user_stablecoin_vault.key,
            authority: Authority::Escrow(market.config.stablecoin_vault),
            amount: o.additional_collateral,
        },
    );
    Ok(plan)
}

/// Liquidates order `id` at `now`, strictly after its deadline. Returns
/// the transfers, signed by the escrow accounts, that give the asset and
/// the buffer to the lender.
pub fn liquidate(market: &mut Market, ctx: &Liquidate, id: u64, now: u64) -> (r: Result<
    Vec<Transfer>,
    ErrorCode,
>)
    requires
        old(market).wf(),
    ensures
        final(market).wf(),
        old(market).evolves_to(&*final(market)),
        match r {
            Ok(plan) => {
                let o = old(market).orders@[id as int];
                &&& old(market).liquidate_error(*ctx, id, now) is None
                &&& final(market).config == (Configuration {
                    total_additional_collateral: (old(market).config.total_additional_collateral
                        - o.additional_collateral) as u64,
                    ..old(market).config
                })
                &&& final(market).orders@ == old(market).orders@.update(
                    id as int,
                    Order { withdrew_at: now, state: OrderState::Liquidated, ..o },
                )
                &&& plan@ == seq![
                    transfer(
                        o.nft_mint,
                        o.nft_vault,
                        ctx.user_nft_vault.key,
                        Authority::Escrow(o.nft_vault),
                        1,
                    ),
                    transfer(
                        old(market).config.stablecoin_mint,
                        old(market).config.stablecoin_vault,
                        ctx.lender_stablecoin_vault.key,
                        Authority::Escrow(old(market).config.stablecoin_vault),
                        o.additional_collateral,
                    ),
                ]
            },
            Err(e) => {
                &&& old(market).liquidate_error(*ctx, id, now) == Some(e)
                &&& *final(market) == *old(market)
            },
        },
{
    proof {
        assert(market.orders@.len() == market.orders.len());
    }
    if id >= market.config.order_id {
        return Err(ErrorCode::UnknownOrder);
    }
    let i = id as usize;
    let o = market.orders[i];
    match o.state {
        OrderState::Liquidated => return Err(ErrorCode::AlreadyLiquidated),
        OrderState::Funded => {},
        _ => return Err(ErrorCode::LoanNotProvided),
    }
    let deadline = match o.loan_start_time.checked_add(o.period) {
        Some(d) => d,
        None => return Err(ErrorCode::ArithmeticOverflow),
    };
    if deadline >= now {
        return Err(ErrorCode::RepaymentPeriodNotExceeded);
    }
    if !(o.lender == Some(ctx.signer) && check_holds(
        &ctx.lender_stablecoin_vault,
        market.config.stablecoin_mint,
        ctx.signer,
    ) && ctx.nft_vault == o.nft_vault && check_holds(
        &ctx.user_nft_vault,
        o.nft_mint,
        ctx.signer,
    )) {
        return Err(ErrorCode::InvalidAccount);
    }
    market.close_order(i, Order { withdrew_at: now, state: OrderState::Liquidated, ..o });
    let mut plan: Vec<Transfer> = Vec::new();
    plan.push(
        Transfer {
            mint: o.nft_mint,
            from: o.nft_vault,
            to: ctx.user_nft_vault.key,
            authority: Authority::Escrow(o.nft_vault),
            amount: 1,
        },
    );
    plan.push(
        Transfer {
            mint: market.config.stablecoin_mint,
            from: market.config.stablecoin_vault,
            to: ctx.lender_stablecoin_vault.key,
            authority: Authority::Escrow(market.config.stablecoin_vault),
            amount: o.additional_collateral,
        },
    );
    Ok(plan)
}

} // verus!
