//! Per-operation account bundles: the named, typed account sets a caller
//! supplies for one invocation. Field order follows the external
//! program's positional schema; sysvar and token-program entries are not
//! fields, the binder inserts those well-known ids itself. Variable-arity
//! tails and optional slots are explicit fields, so the encoded
//! instruction and the physical account list are generated from one
//! source of truth.

use vstd::prelude::*;

use crate::account::{AccountMeta, Pubkey};

verus! {

/// Accounts of `InitLendingMarket`. The owner is carried inside the
/// instruction arguments; the market account, rent sysvar, token program
/// and the two oracle program ids form the account list.
#[derive(Clone, Copy, PartialEq, Eq, Debug)]
pub struct InitLendingMarketAccounts {
    pub owner: Pubkey,
    pub lending_market_pubkey: Pubkey,
    pub oracle_program_id: Pubkey,
    pub switchboard_oracle_program_id: Pubkey,
}

/// Accounts of `SetLendingMarketOwner`. The new owner is carried inside
/// the instruction arguments; the current owner must sign.
#[derive(Clone, Copy, PartialEq, Eq, Debug)]
pub struct SetLendingMarketOwnerAccounts {
    pub new_owner: Pubkey,
    pub lending_market_pubkey: Pubkey,
    pub lending_market_owner: Pubkey,
}

/// Accounts of `InitReserve`. The market owner and the user transfer
/// authority must sign; the fee receiver also appears inside the
/// serialized reserve configuration.
#[derive(Clone, Copy, PartialEq, Eq, Debug)]
pub struct InitReserveAccounts {
    pub source_liquidity_pubkey: Pubkey,
    pub destination_collateral_pubkey: Pubkey,
    pub reserve_pubkey: Pubkey,
    pub reserve_liquidity_mint_pubkey: Pubkey,
    pub reserve_liquidity_supply_pubkey: Pubkey,
    pub reserve_collateral_mint_pubkey: Pubkey,
    pub reserve_collateral_supply_pubkey: Pubkey,
    pub pyth_product_pubkey: Pubkey,
    pub pyth_price_pubkey: Pubkey,
    pub switchboard_feed_pubkey: Pubkey,
    pub lending_market_pubkey: Pubkey,
    pub lending_market_owner_pubkey: Pubkey,
    pub user_transfer_authority_pubkey: Pubkey,
    pub fee_receiver_pubkey: Pubkey,
    pub lending_market_authority_pubkey: Pubkey,
}

/// Accounts of `RefreshReserve`: the reserve and its two price oracles.
#[derive(Clone, Copy, PartialEq, Eq, Debug)]
pub struct RefreshReserveAccounts {
    pub reserve_pubkey: Pubkey,
    pub reserve_liquidity_pyth_oracle_pubkey: Pubkey,
    pub reserve_liquidity_switchboard_oracle_pubkey: Pubkey,
}

/// Accounts of `DepositReserveLiquidity`: seven fixed named accounts; the
/// binder appends the clock sysvar and the token program.
#[derive(Clone, Copy, PartialEq, Eq, Debug)]
pub struct DepositReserveLiquidityAccounts {
    pub source_liquidity_pubkey: Pubkey,
    pub destination_collateral_pubkey: Pubkey,
    pub reserve_pubkey: Pubkey,
    pub reserve_liquidity_supply_pubkey: Pubkey,
    pub reserve_collateral_mint_pubkey: Pubkey,
    pub lending_market_pubkey: Pubkey,
    pub user_transfer_authority_pubkey: Pubkey,
}

/// Accounts of `RedeemReserveCollateral`.
#[derive(Clone, Copy, PartialEq, Eq, Debug)]
pub struct RedeemReserveCollateralAccounts {
    pub source_collateral_pubkey: Pubkey,
    pub destination_liquidity_pubkey: Pubkey,
    pub reserve_pubkey: Pubkey,
    pub reserve_collateral_mint_pubkey: Pubkey,
    pub reserve_liquidity_supply_pubkey: Pubkey,
    pub lending_market_pubkey: Pubkey,
    pub user_transfer_authority_pubkey: Pubkey,
}

/// Accounts of `InitObligation`. The obligation owner must sign.
#[derive(Clone, Copy, PartialEq, Eq, Debug)]
pub struct InitObligationAccounts {
    pub obligation_pubkey: Pubkey,
    pub lending_market_pubkey: Pubkey,
    pub obligation_owner_pubkey: Pubkey,
}

/// Accounts of `RefreshObligation`: the obligation, then a caller-sized
/// trailing list of the obligation's deposit and borrow reserves, kept in
/// caller order with no deduplication.
#[derive(Clone, PartialEq, Eq, Debug)]
pub struct RefreshObligationAccounts {
    pub obligation_pubkey: Pubkey,
    pub reserve_pubkeys: Vec<Pubkey>,
}

/// Accounts of `DepositObligationCollateral`. The obligation owner and
/// the user transfer authority must sign.
#[derive(Clone, Copy, PartialEq, Eq, Debug)]
pub struct DepositObligationCollateralAccounts {
    pub source_collateral_pubkey: Pubkey,
    pub destination_collateral_pubkey: Pubkey,
    pub deposit_reserve_pubkey: Pubkey,
    pub obligation_pubkey: Pubkey,
    pub lending_market_pubkey: Pubkey,
    pub obligation_owner_pubkey: Pubkey,
    pub user_transfer_authority_pubkey: Pubkey,
}

/// Accounts of `WithdrawObligationCollateral`. The obligation owner must
/// sign.
#[derive(Clone, Copy, PartialEq, Eq, Debug)]
pub struct WithdrawObligationCollateralAccounts {
    pub source_collateral_pubkey: Pubkey,
    pub destination_collateral_pubkey: Pubkey,
    pub withdraw_reserve_pubkey: Pubkey,
    pub obligation_pubkey: Pubkey,
    pub lending_market_pubkey: Pubkey,
    pub obligation_owner_pubkey: Pubkey,
}

/// Accounts of `BorrowObligationLiquidity`. The host fee receiver is an
/// optional single slot: when present it is appended as the last account
/// and the encoded instruction carries the matching extra meta; when
/// absent both views stay at the fixed schema length.
#[derive(Clone, Copy, PartialEq, Eq, Debug)]
pub struct BorrowObligationLiquidityAccounts {
    pub source_liquidity_pubkey: Pubkey,
    pub destination_liquidity_pubkey: Pubkey,
    pub borrow_reserve_pubkey: Pubkey,
    pub borrow_reserve_liquidity_fee_receiver_pubkey: Pubkey,
    pub obligation_pubkey: Pubkey,
    pub lending_market_pubkey: Pubkey,
    pub obligation_owner_pubkey: Pubkey,
    pub host_fee_receiver_pubkey: Option<Pubkey>,
}

/// Accounts of `RepayObligationLiquidity`. The user transfer authority
/// must sign.
#[derive(Clone, Copy, PartialEq, Eq, Debug)]
pub struct RepayObligationLiquidityAccounts {
    pub source_liquidity_pubkey: Pubkey,
    pub destination_liquidity_pubkey: Pubkey,
    pub repay_reserve_pubkey: Pubkey,
    pub obligation_pubkey: Pubkey,
    pub lending_market_pubkey: Pubkey,
    pub user_transfer_authority_pubkey: Pubkey,
}

/// Accounts of `LiquidateObligation`. The user transfer authority must
/// sign.
#[derive(Clone, Copy, PartialEq, Eq, Debug)]
pub struct LiquidateObligationAccounts {
    pub source_liquidity_pubkey: Pubkey,
    pub destination_collateral_pubkey: Pubkey,
    pub repay_reserve_pubkey: Pubkey,
    pub repay_reserve_liquidity_supply_pubkey: Pubkey,
    pub withdraw_reserve_pubkey: Pubkey,
    pub withdraw_reserve_collateral_supply_pubkey: Pubkey,
    pub obligation_pubkey: Pubkey,
    pub lending_market_pubkey: Pubkey,
    pub user_transfer_authority_pubkey: Pubkey,
}

/// Accounts of `FlashLoan`: nine fixed accounts, then the receiver
/// program's own accounts as a caller-sized tail. Each tail entry keeps
/// the capability flags the caller chose; the same descriptors are
/// embedded in the instruction and appended to the physical list.
#[derive(Clone, PartialEq, Eq, Debug)]
pub struct FlashLoanAccounts {
    pub source_liquidity_pubkey: Pubkey,
    pub destination_liquidity_pubkey: Pubkey,
    pub reserve_pubkey: Pubkey,
    pub reserve_liquidity_fee_receiver_pubkey: Pubkey,
    pub host_fee_receiver_pubkey: Pubkey,
    pub lending_market_pubkey: Pubkey,
    pub lending_market_authority_pubkey: Pubkey,
    pub flash_loan_receiver_program_id: Pubkey,
    pub flash_loan_receiver_program_accounts: Vec<AccountMeta>,
}

/// Accounts of `DepositReserveLiquidityAndObligationCollateral`. The
/// obligation owner and the user transfer authority must sign.
#[derive(Clone, Copy, PartialEq, Eq, Debug)]
pub struct DepositReserveLiquidityAndObligationCollateralAccounts {
    pub source_liquidity_pubkey: Pubkey,
    pub user_collateral_pubkey: Pubkey,
    pub reserve_pubkey: Pubkey,
    pub reserve_liquidity_supply_pubkey: Pubkey,
    pub reserve_collateral_mint_pubkey: Pubkey,
    pub lending_market_pubkey: Pubkey,
    pub lending_market_authority_pubkey: Pubkey,
    pub destination_deposit_collateral_pubkey: Pubkey,
    pub obligation_pubkey: Pubkey,
    pub obligation_owner_pubkey: Pubkey,
    pub reserve_liquidity_pyth_oracle_pubkey: Pubkey,
    pub reserve_liquidity_switchboard_oracle_pubkey: Pubkey,
    pub user_transfer_authority_pubkey: Pubkey,
}

/// Accounts of `UpdateReserveConfig`. The market owner must sign.
#[derive(Clone, Copy, PartialEq, Eq, Debug)]
pub struct UpdateReserveConfigAccounts {
    pub reserve_pubkey: Pubkey,
    pub lending_market_pubkey: Pubkey,
    pub lending_market_authority_pubkey: Pubkey,
    pub lending_market_owner_pubkey: Pubkey,
    pub pyth_product_pubkey: Pubkey,
    pub pyth_price_pubkey: Pubkey,
    pub switchboard_feed_pubkey: Pubkey,
}

} // verus!
