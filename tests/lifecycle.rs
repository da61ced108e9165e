use std::collections::HashMap;

use nft_loans::market::{
    cancel_order, create_order, give_loan, liquidate, payback, CancelOrder, CreateOrder, GiveLoan,
    Initialize, Liquidate, Market, Payback,
};
use nft_loans::order::OrderState;
use nft_loans::registry::{initialize, Registry};
use nft_loans::types::{Authority, ErrorCode, Key, Mint, TokenAccount, Transfer};

fn key(n: u128) -> Key {
    Key { hi: 0, lo: n }
}

const STABLE: u128 = 1;
const BUFFER: u128 = 2;
const BORROWER: u128 = 10;
const BORROWER_STABLE: u128 = 11;
const BORROWER_NFT: u128 = 12;
const NFT: u128 = 20;
const NFT_ESCROW: u128 = 21;
const LENDER: u128 = 30;
const LENDER_STABLE: u128 = 31;
const LENDER_NFT: u128 = 32;

fn account(k: u128, mint: u128, owner: u128) -> TokenAccount {
    TokenAccount { key: key(k), mint: key(mint), owner: key(owner) }
}

fn market() -> Market {
    let ctx = Initialize { signer: key(99), stablecoin_mint: key(STABLE), stablecoin_vault: key(BUFFER) };
    Market::new(&ctx, 3)
}

fn create_ctx() -> CreateOrder {
    CreateOrder {
        signer: key(BORROWER),
        user_stablecoin_vault: account(BORROWER_STABLE, STABLE, BORROWER),
        nft_mint: Mint { key: key(NFT), supply: 1, decimals: 0 },
        user_nft_vault: account(BORROWER_NFT, NFT, BORROWER),
        nft_vault: key(NFT_ESCROW),
    }
}

fn give_ctx() -> GiveLoan {
    GiveLoan {
        signer: key(LENDER),
        lender_stablecoin_vault: account(LENDER_STABLE, STABLE, LENDER),
        borrower_stablecoin_vault: account(BORROWER_STABLE, STABLE, BORROWER),
    }
}

fn cancel_ctx() -> CancelOrder {
    CancelOrder {
        signer: key(BORROWER),
        user_stablecoin_vault: account(BORROWER_STABLE, STABLE, BORROWER),
        nft_vault: key(NFT_ESCROW),
        user_nft_vault: account(BORROWER_NFT, NFT, BORROWER),
    }
}

fn pay_ctx() -> Payback {
    Payback {
        signer: key(BORROWER),
        lender_stablecoin_vault: account(LENDER_STABLE, STABLE, LENDER),
        user_stablecoin_vault: account(BORROWER_STABLE, STABLE, BORROWER),
        nft_vault: key(NFT_ESCROW),
        user_nft_vault: account(BORROWER_NFT, NFT, BORROWER),
    }
}

fn liq_ctx() -> Liquidate {
    Liquidate {
        signer: key(LENDER),
        lender_stablecoin_vault: account(LENDER_STABLE, STABLE, LENDER),
        nft_vault: key(NFT_ESCROW),
        user_nft_vault: account(LENDER_NFT, NFT, LENDER),
    }
}

fn t(mint: u128, from: u128, to: u128, authority: Authority, amount: u64) -> Transfer {
    Transfer { mint: key(mint), from: key(from), to: key(to), authority, amount }
}

const FUNDED_AT: u64 = 2_000;
const PERIOD: u64 = 86_400;

/// A market with order 0 (1000 asked, 50 interest, 86400 s, 200 buffer)
/// funded at `FUNDED_AT`.
fn funded_market() -> Market {
    let mut m = market();
    create_order(&mut m, &create_ctx(), 1000, 50, PERIOD, 200, 1_000).unwrap();
    give_loan(&mut m, &give_ctx(), 0, FUNDED_AT).unwrap();
    m
}

fn apply(balances: &mut HashMap<Key, i128>, plan: &[Transfer]) {
    for tr in plan {
        *balances.entry(tr.from).or_insert(0) -= tr.amount as i128;
        *balances.entry(tr.to).or_insert(0) += tr.amount as i128;
    }
}

fn locked_by_open_orders(m: &Market) -> u64 {
    m.orders.iter().filter(|o| o.is_open()).map(|o| o.additional_collateral).sum()
}

#[test]
fn repay_scenario() {
    let mut m = market();
    let plan = create_order(&mut m, &create_ctx(), 1000, 50, PERIOD, 200, 1_000).unwrap();
    assert_eq!(
        plan,
        vec![
            t(NFT, BORROWER_NFT, NFT_ESCROW, Authority::Signer(key(BORROWER)), 1),
            t(STABLE, BORROWER_STABLE, BUFFER, Authority::Signer(key(BORROWER)), 200),
        ]
    );
    assert_eq!(m.orders[0].state, OrderState::AwaitingFunding);
    assert_eq!(m.config.total_additional_collateral, 200);
    assert_eq!(m.config.order_id, 1);
    assert_eq!(m.orders[0].created_at, 1_000);

    let plan = give_loan(&mut m, &give_ctx(), 0, FUNDED_AT).unwrap();
    assert_eq!(plan, vec![t(STABLE, LENDER_STABLE, BORROWER_STABLE, Authority::Signer(key(LENDER)), 1000)]);
    assert_eq!(m.orders[0].state, OrderState::Funded);
    assert_eq!(m.orders[0].lender, Some(key(LENDER)));
    assert_eq!(m.orders[0].loan_start_time, FUNDED_AT);

    let plan = payback(&mut m, &pay_ctx(), 0, FUNDED_AT + 86_300).unwrap();
    assert_eq!(
        plan,
        vec![
            t(STABLE, BORROWER_STABLE, LENDER_STABLE, Authority::Signer(key(BORROWER)), 1050),
            t(NFT, NFT_ESCROW, BORROWER_NFT, Authority::Escrow(key(NFT_ESCROW)), 1),
            t(STABLE, BUFFER, BORROWER_STABLE, Authority::Escrow(key(BUFFER)), 200),
        ]
    );
    assert_eq!(m.config.total_additional_collateral, 0);
    assert_eq!(m.orders[0].state, OrderState::Repaid);
    assert_eq!(m.orders[0].paid_back_at, FUNDED_AT + 86_300);

    assert_eq!(payback(&mut m, &pay_ctx(), 0, FUNDED_AT + 86_301), Err(ErrorCode::LoanNotProvided));
    assert_eq!(m.orders[0].state, OrderState::Repaid);
}

#[test]
fn liquidate_scenario() {
    let mut m = funded_market();
    let late = FUNDED_AT + PERIOD + 1;
    assert_eq!(payback(&mut m, &pay_ctx(), 0, late), Err(ErrorCode::RepaymentPeriodExceeded));
    assert_eq!(m.orders[0].state, OrderState::Funded);
    let plan = liquidate(&mut m, &liq_ctx(), 0, late).unwrap();
    assert_eq!(
        plan,
        vec![
            t(NFT, NFT_ESCROW, LENDER_NFT, Authority::Escrow(key(NFT_ESCROW)), 1),
            t(STABLE, BUFFER, LENDER_STABLE, Authority::Escrow(key(BUFFER)), 200),
        ]
    );
    assert_eq!(m.orders[0].state, OrderState::Liquidated);
    assert_eq!(m.orders[0].withdrew_at, late);
    assert_eq!(m.config.total_additional_collateral, 0);
}

#[test]
fn deadline_instant_belongs_to_repay() {
    let deadline = FUNDED_AT + PERIOD;
    let mut m = funded_market();
    assert_eq!(liquidate(&mut m, &liq_ctx(), 0, deadline), Err(ErrorCode::RepaymentPeriodNotExceeded));
    assert!(payback(&mut m, &pay_ctx(), 0, deadline).is_ok());

    let mut m = funded_market();
    assert_eq!(payback(&mut m, &pay_ctx(), 0, deadline + 1), Err(ErrorCode::RepaymentPeriodExceeded));
    assert!(liquidate(&mut m, &liq_ctx(), 0, deadline + 1).is_ok());
}

#[test]
fn liquidate_before_deadline_fails() {
    let mut m = funded_market();
    assert_eq!(liquidate(&mut m, &liq_ctx(), 0, FUNDED_AT + 10), Err(ErrorCode::RepaymentPeriodNotExceeded));
    assert_eq!(m.orders[0].state, OrderState::Funded);
}

#[test]
fn second_liquidation_has_its_own_error() {
    let mut m = funded_market();
    let late = FUNDED_AT + PERIOD + 5;
    liquidate(&mut m, &liq_ctx(), 0, late).unwrap();
    assert_eq!(liquidate(&mut m, &liq_ctx(), 0, late + 1), Err(ErrorCode::AlreadyLiquidated));
    assert_eq!(payback(&mut m, &pay_ctx(), 0, late), Err(ErrorCode::LoanNotProvided));
}

#[test]
fn funded_order_cannot_be_funded_or_cancelled() {
    let mut m = funded_market();
    assert_eq!(give_loan(&mut m, &give_ctx(), 0, FUNDED_AT + 1), Err(ErrorCode::LoanAlreadyStarted));
    assert_eq!(cancel_order(&mut m, &cancel_ctx(), 0), Err(ErrorCode::LoanAlreadyStarted));
    assert_eq!(m.orders[0].loan_start_time, FUNDED_AT);
    assert_eq!(m.config.total_additional_collateral, 200);
}

#[test]
fn unfunded_order_cannot_be_repaid_or_liquidated() {
    let mut m = market();
    create_order(&mut m, &create_ctx(), 1000, 50, PERIOD, 200, 1_000).unwrap();
    assert_eq!(payback(&mut m, &pay_ctx(), 0, 5_000), Err(ErrorCode::LoanNotProvided));
    assert_eq!(liquidate(&mut m, &liq_ctx(), 0, 500_000), Err(ErrorCode::LoanNotProvided));
}

#[test]
fn cancel_returns_collateral() {
    let mut m = market();
    create_order(&mut m, &create_ctx(), 1000, 50, PERIOD, 200, 1_000).unwrap();
    let plan = cancel_order(&mut m, &cancel_ctx(), 0).unwrap();
    assert_eq!(
        plan,
        vec![
            t(NFT, NFT_ESCROW, BORROWER_NFT, Authority::Escrow(key(NFT_ESCROW)), 1),
            t(STABLE, BUFFER, BORROWER_STABLE, Authority::Escrow(key(BUFFER)), 200),
        ]
    );
    assert_eq!(m.orders[0].state, OrderState::Cancelled);
    assert!(!m.orders[0].is_open());
    assert_eq!(m.config.total_additional_collateral, 0);
    assert_eq!(cancel_order(&mut m, &cancel_ctx(), 0), Err(ErrorCode::LoanAlreadyStarted));
    assert_eq!(give_loan(&mut m, &give_ctx(), 0, 3_000), Err(ErrorCode::LoanAlreadyStarted));
}

#[test]
fn zero_principal_is_rejected() {
    let mut m = market();
    assert_eq!(
        create_order(&mut m, &create_ctx(), 0, 50, PERIOD, 200, 1_000),
        Err(ErrorCode::AmountMustBeGreaterThanZero)
    );
    assert!(m.orders.is_empty());
    assert_eq!(m.config.order_id, 0);
    assert_eq!(m.config.total_additional_collateral, 0);
}

#[test]
fn create_without_buffer_is_accepted() {
    let mut m = market();
    let plan = create_order(&mut m, &create_ctx(), 1, 0, 0, 0, 7).unwrap();
    assert_eq!(plan[1].amount, 0);
    assert_eq!(m.config.total_additional_collateral, 0);
    assert_eq!(m.orders[0].state, OrderState::AwaitingFunding);
}

#[test]
fn foreign_accounts_are_rejected() {
    let mut m = market();
    let mut ctx = create_ctx();
    ctx.user_nft_vault = account(BORROWER_NFT, NFT, LENDER);
    assert_eq!(create_order(&mut m, &ctx, 1000, 50, PERIOD, 200, 1_000), Err(ErrorCode::InvalidAccount));
    let mut ctx = create_ctx();
    ctx.nft_mint.supply = 2;
    assert_eq!(create_order(&mut m, &ctx, 1000, 50, PERIOD, 200, 1_000), Err(ErrorCode::InvalidAccount));

    let mut m = funded_market();
    let mut ctx = cancel_ctx();
    ctx.signer = key(LENDER);
    assert_eq!(cancel_order(&mut m, &ctx, 0), Err(ErrorCode::LoanAlreadyStarted));
    let mut ctx = pay_ctx();
    ctx.signer = key(LENDER);
    assert_eq!(payback(&mut m, &ctx, 0, FUNDED_AT), Err(ErrorCode::InvalidAccount));
    let mut ctx = liq_ctx();
    ctx.signer = key(BORROWER);
    assert_eq!(liquidate(&mut m, &ctx, 0, FUNDED_AT + PERIOD + 1), Err(ErrorCode::InvalidAccount));

    let mut m = market();
    create_order(&mut m, &create_ctx(), 1000, 50, PERIOD, 200, 1_000).unwrap();
    let mut ctx = give_ctx();
    ctx.borrower_stablecoin_vault = account(LENDER_STABLE, STABLE, LENDER);
    assert_eq!(give_loan(&mut m, &ctx, 0, FUNDED_AT), Err(ErrorCode::InvalidAccount));
    let mut ctx = cancel_ctx();
    ctx.nft_vault = key(77);
    assert_eq!(cancel_order(&mut m, &ctx, 0), Err(ErrorCode::InvalidAccount));
    assert_eq!(m.orders[0].state, OrderState::AwaitingFunding);
}

#[test]
fn unknown_order_is_rejected() {
    let mut m = funded_market();
    assert_eq!(give_loan(&mut m, &give_ctx(), 1, FUNDED_AT), Err(ErrorCode::UnknownOrder));
    assert_eq!(cancel_order(&mut m, &cancel_ctx(), 1), Err(ErrorCode::UnknownOrder));
    assert_eq!(payback(&mut m, &pay_ctx(), 7, FUNDED_AT), Err(ErrorCode::UnknownOrder));
    assert_eq!(liquidate(&mut m, &liq_ctx(), u64::MAX, u64::MAX), Err(ErrorCode::UnknownOrder));
}

#[test]
fn overflowing_sums_are_rejected() {
    let mut m = market();
    create_order(&mut m, &create_ctx(), u64::MAX, 1, PERIOD, u64::MAX, 1_000).unwrap();
    assert_eq!(
        create_order(&mut m, &create_ctx(), 5, 1, PERIOD, 1, 1_000),
        Err(ErrorCode::ArithmeticOverflow)
    );
    assert_eq!(m.config.order_id, 1);
    give_loan(&mut m, &give_ctx(), 0, FUNDED_AT).unwrap();
    assert_eq!(payback(&mut m, &pay_ctx(), 0, FUNDED_AT), Err(ErrorCode::ArithmeticOverflow));

    let mut m = market();
    create_order(&mut m, &create_ctx(), 10, 1, u64::MAX, 0, 1_000).unwrap();
    give_loan(&mut m, &give_ctx(), 0, FUNDED_AT).unwrap();
    assert_eq!(payback(&mut m, &pay_ctx(), 0, FUNDED_AT), Err(ErrorCode::ArithmeticOverflow));
    assert_eq!(liquidate(&mut m, &liq_ctx(), 0, u64::MAX), Err(ErrorCode::ArithmeticOverflow));
}

#[test]
fn second_market_for_a_stablecoin_is_rejected() {
    let mut r = Registry::new();
    let ctx = Initialize { signer: key(99), stablecoin_mint: key(STABLE), stablecoin_vault: key(BUFFER) };
    assert_eq!(initialize(&mut r, &ctx, 3), Ok(0));
    assert_eq!(r.markets[0].config.order_id, 0);
    assert_eq!(r.markets[0].config.total_additional_collateral, 0);
    assert_eq!(r.markets[0].config.fee_pt, 3);
    assert_eq!(initialize(&mut r, &ctx, 5), Err(ErrorCode::AlreadyInitialized));
    let other = Initialize { signer: key(99), stablecoin_mint: key(3), stablecoin_vault: key(4) };
    assert_eq!(initialize(&mut r, &other, 5), Ok(1));
    assert_eq!(r.find_market(key(3)), Some(1));
    assert_eq!(r.find_market(key(STABLE)), Some(0));
    assert_eq!(r.find_market(key(8)), None);
    assert_eq!(r.markets.len(), 2);
}

#[test]
fn locked_total_follows_open_orders() {
    let mut m = market();
    let mut ctx = create_ctx();
    create_order(&mut m, &ctx, 100, 1, PERIOD, 30, 1).unwrap();
    ctx.nft_mint.key = key(40);
    ctx.user_nft_vault = account(41, 40, BORROWER);
    ctx.nft_vault = key(42);
    create_order(&mut m, &ctx, 100, 1, PERIOD, 70, 1).unwrap();
    assert_eq!(m.config.total_additional_collateral, 100);
    assert_eq!(locked_by_open_orders(&m), 100);
    give_loan(&mut m, &give_ctx(), 1, FUNDED_AT).unwrap();
    assert_eq!(m.config.total_additional_collateral, 100);
    assert_eq!(locked_by_open_orders(&m), 100);
    cancel_order(&mut m, &cancel_ctx(), 0).unwrap();
    assert_eq!(m.config.total_additional_collateral, 70);
    assert_eq!(locked_by_open_orders(&m), 70);
    let mut pay = pay_ctx();
    pay.nft_vault = key(42);
    pay.user_nft_vault = account(41, 40, BORROWER);
    payback(&mut m, &pay, 1, FUNDED_AT).unwrap();
    assert_eq!(m.config.total_additional_collateral, 0);
    assert_eq!(locked_by_open_orders(&m), 0);
}

#[test]
fn plans_conserve_balances() {
    let mut balances: HashMap<Key, i128> = HashMap::new();
    balances.insert(key(BORROWER_STABLE), 5_000);
    balances.insert(key(BORROWER_NFT), 1);
    balances.insert(key(LENDER_STABLE), 5_000);
    let sum = |b: &HashMap<Key, i128>| b.values().sum::<i128>();
    let before = sum(&balances);

    let mut m = market();
    let p = create_order(&mut m, &create_ctx(), 1000, 50, PERIOD, 200, 1_000).unwrap();
    apply(&mut balances, &p);
    assert_eq!(balances[&key(BUFFER)], 200);
    assert_eq!(balances[&key(NFT_ESCROW)], 1);
    let p = give_loan(&mut m, &give_ctx(), 0, FUNDED_AT).unwrap();
    apply(&mut balances, &p);
    let p = payback(&mut m, &pay_ctx(), 0, FUNDED_AT + 86_300).unwrap();
    apply(&mut balances, &p);

    assert_eq!(sum(&balances), before);
    assert_eq!(balances[&key(BUFFER)], 0);
    assert_eq!(balances[&key(NFT_ESCROW)], 0);
    assert_eq!(balances[&key(BORROWER_NFT)], 1);
    assert_eq!(balances[&key(BORROWER_STABLE)], 5_000 - 50);
    assert_eq!(balances[&key(LENDER_STABLE)], 5_000 + 50);
}

#[test]
fn stored_market_is_checked() {
    let mut m = funded_market();
    assert!(m.is_well_formed());
    assert!(market().is_well_formed());
    m.config.total_additional_collateral = 199;
    assert!(!m.is_well_formed());
    let mut m = funded_market();
    m.config.order_id = 2;
    assert!(!m.is_well_formed());
    let mut m = funded_market();
    m.orders[0].stablecoin_vault = key(5);
    assert!(!m.is_well_formed());
    let mut m = funded_market();
    m.orders[0].state = OrderState::Cancelled;
    assert!(!m.is_well_formed());
    m.config.total_additional_collateral = 0;
    assert!(m.is_well_formed());
}
