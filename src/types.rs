use vstd::prelude::*;

verus! {

/// A 32-byte account or mint address, held as its high and low 16 bytes
/// (big-endian).
#[derive(Clone, Copy, Debug, PartialEq, Eq, Hash, Structural)]
pub struct Key {
    pub hi: u128,
    pub lo: u128,
}

/// The fields of a token account that the lending rules read.
#[derive(Clone, Copy, Debug, PartialEq, Eq, Structural)]
pub struct TokenAccount {
    /// Address of the token account itself.
    pub key: Key,
    /// Mint of the tokens it holds.
    pub mint: Key,
    /// Party allowed to move tokens out of it.
    pub owner: Key,
}

/// The fields of a mint that the lending rules read.
#[derive(Clone, Copy, Debug, PartialEq, Eq, Structural)]
pub struct Mint {
    pub key: Key,
    pub supply: u64,
    pub decimals: u8,
}

/// Who authorizes a transfer.
#[derive(Clone, Copy, Debug, PartialEq, Eq, Structural)]
pub enum Authority {
    /// The external party that signed the call.
    Signer(Key),
    /// The escrow account itself, through its program-derived address.
    Escrow(Key),
}

/// One movement of `amount` tokens of `mint` from the token account `from`
/// to the token account `to`.
#[derive(Clone, Copy, Debug, PartialEq, Eq, Structural)]
pub struct Transfer {
    pub mint: Key,
    pub from: Key,
    pub to: Key,
    pub authority: Authority,
    pub amount: u64,
}

/// Why an operation was rejected. A rejected operation changes nothing and
/// moves nothing.
#[derive(Clone, Copy, Debug, PartialEq, Eq, Structural)]
pub enum ErrorCode {
    /// A loan of zero was requested.
    AmountMustBeGreaterThanZero,
    /// The order is no longer awaiting funding: it was funded or closed.
    LoanAlreadyStarted,
    /// The order is not an active (funded and unresolved) loan.
    LoanNotProvided,
    /// Repayment came after the deadline.
    RepaymentPeriodExceeded,
    /// Liquidation came before the deadline had passed.
    RepaymentPeriodNotExceeded,
    /// The order was liquidated already.
    AlreadyLiquidated,
    /// A checked addition would overflow.
    ArithmeticOverflow,
    /// A market for this stablecoin exists already.
    AlreadyInitialized,
    /// No order has this id in the market.
    UnknownOrder,
    /// A caller or an account handed in is not the one the order expects
    /// (wrong signer, owner, mint or escrow account).
    InvalidAccount,
    /// The token program refused a transfer of the plan.
    TransferFailed,
}

/// The account holds tokens of `mint` and belongs to `owner`.
pub open spec fn holds(a: TokenAccount, mint: Key, owner: Key) -> bool {
    a.mint == mint && a.owner == owner
}

pub fn check_holds(a: &TokenAccount, mint: Key, owner: Key) -> (r: bool)
    ensures
        r == holds(*a, mint, owner),
{
    a.mint == mint && a.owner == owner
}

/// A mint whose single token is non-fungible.
pub open spec fn is_unique_asset(m: Mint) -> bool {
    m.supply == 1 && m.decimals == 0
}

} // verus!
