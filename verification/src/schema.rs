//! The external program's account schema for each operation: the exact
//! ordered account metas its instruction handler destructures
//! positionally. These spec functions are the single source of truth the
//! binder is proved against, for both the metas embedded in the encoded
//! instruction and the physical account list handed to the invocation
//! primitive.

use vstd::prelude::*;

use crate::account::{
    readonly, signer, spec_clock_sysvar_id, spec_rent_sysvar_id, spec_token_program_id, writable,
    AccountMeta, Pubkey,
};
use crate::bundles::{
    BorrowObligationLiquidityAccounts, DepositObligationCollateralAccounts,
    DepositReserveLiquidityAccounts, DepositReserveLiquidityAndObligationCollateralAccounts,
    FlashLoanAccounts, InitLendingMarketAccounts, InitObligationAccounts, InitReserveAccounts,
    LiquidateObligationAccounts, RedeemReserveCollateralAccounts, RefreshObligationAccounts,
    RefreshReserveAccounts, RepayObligationLiquidityAccounts, SetLendingMarketOwnerAccounts,
    UpdateReserveConfigAccounts, WithdrawObligationCollateralAccounts,
};

verus! {

/// The addresses of an account-meta list, in order, flags dropped: the
/// shape of the physical account list.
pub open spec fn keys_of(metas: Seq<AccountMeta>) -> Seq<Pubkey> {
    metas.map_values(|m: AccountMeta| m.pubkey)
}

/// `InitLendingMarket`: market (writable), rent sysvar, token program,
/// then the two oracle program ids.
pub open spec fn init_lending_market_metas(a: InitLendingMarketAccounts) -> Seq<AccountMeta> {
    seq![
        writable(a.lending_market_pubkey),
        readonly(spec_rent_sysvar_id()),
        readonly(spec_token_program_id()),
        readonly(a.oracle_program_id),
        readonly(a.switchboard_oracle_program_id),
    ]
}

/// `SetLendingMarketOwner`: market (writable), current owner (signer).
pub open spec fn set_lending_market_owner_metas(
    a: SetLendingMarketOwnerAccounts,
) -> Seq<AccountMeta> {
    seq![writable(a.lending_market_pubkey), signer(a.lending_market_owner)]
}

/// `InitReserve`: the reserve's token accounts and mints, the fee
/// receiver, the price oracles, the market with its derived authority,
/// the two signers, then clock, rent and the token program.
pub open spec fn init_reserve_metas(a: InitReserveAccounts) -> Seq<AccountMeta> {
    seq![
        writable(a.source_liquidity_pubkey),
        writable(a.destination_collateral_pubkey),
        writable(a.reserve_pubkey),
        readonly(a.reserve_liquidity_mint_pubkey),
        writable(a.reserve_liquidity_supply_pubkey),
        writable(a.fee_receiver_pubkey),
        writable(a.reserve_collateral_mint_pubkey),
        writable(a.reserve_collateral_supply_pubkey),
        readonly(a.pyth_product_pubkey),
        readonly(a.pyth_price_pubkey),
        readonly(a.switchboard_feed_pubkey),
        readonly(a.lending_market_pubkey),
        readonly(a.lending_market_authority_pubkey),
        signer(a.lending_market_owner_pubkey),
        signer(a.user_transfer_authority_pubkey),
        readonly(spec_clock_sysvar_id()),
        readonly(spec_rent_sysvar_id()),
        readonly(spec_token_program_id()),
    ]
}

/// `RefreshReserve`: reserve (writable), its two oracles, the clock.
pub open spec fn refresh_reserve_metas(a: RefreshReserveAccounts) -> Seq<AccountMeta> {
    seq![
        writable(a.reserve_pubkey),
        readonly(a.reserve_liquidity_pyth_oracle_pubkey),
        readonly(a.reserve_liquidity_switchboard_oracle_pubkey),
        readonly(spec_clock_sysvar_id()),
    ]
}

/// `DepositReserveLiquidity`: the seven named accounts in bundle order,
/// then clock and the token program - nine entries in all.
pub open spec fn deposit_reserve_liquidity_metas(
    a: DepositReserveLiquidityAccounts,
) -> Seq<AccountMeta> {
    seq![
        writable(a.source_liquidity_pubkey),
        writable(a.destination_collateral_pubkey),
        writable(a.reserve_pubkey),
        writable(a.reserve_liquidity_supply_pubkey),
        writable(a.reserve_collateral_mint_pubkey),
        readonly(a.lending_market_pubkey),
        signer(a.user_transfer_authority_pubkey),
        readonly(spec_clock_sysvar_id()),
        readonly(spec_token_program_id()),
    ]
}

/// `RedeemReserveCollateral`: mirror image of the deposit schema.
pub open spec fn redeem_reserve_collateral_metas(
    a: RedeemReserveCollateralAccounts,
) -> Seq<AccountMeta> {
    seq![
        writable(a.source_collateral_pubkey),
        writable(a.destination_liquidity_pubkey),
        writable(a.reserve_pubkey),
        writable(a.reserve_collateral_mint_pubkey),
        writable(a.reserve_liquidity_supply_pubkey),
        readonly(a.lending_market_pubkey),
        signer(a.user_transfer_authority_pubkey),
        readonly(spec_clock_sysvar_id()),
        readonly(spec_token_program_id()),
    ]
}

/// `InitObligation`: obligation (writable), market, owner (signer),
/// clock, rent, token program.
pub open spec fn init_obligation_metas(a: InitObligationAccounts) -> Seq<AccountMeta> {
    seq![
        writable(a.obligation_pubkey),
        readonly(a.lending_market_pubkey),
        signer(a.obligation_owner_pubkey),
        readonly(spec_clock_sysvar_id()),
        readonly(spec_rent_sysvar_id()),
        readonly(spec_token_program_id()),
    ]
}

/// `RefreshObligation`: obligation (writable), clock, then the supplied
/// reserves read-only, in caller order.
pub open spec fn refresh_obligation_metas(a: RefreshObligationAccounts) -> Seq<AccountMeta> {
    seq![writable(a.obligation_pubkey), readonly(spec_clock_sysvar_id())]
        + a.reserve_pubkeys@.map_values(|k: Pubkey| readonly(k))
}

/// `DepositObligationCollateral`.
pub open spec fn deposit_obligation_collateral_metas(
    a: DepositObligationCollateralAccounts,
) -> Seq<AccountMeta> {
    seq![
        writable(a.source_collateral_pubkey),
        writable(a.destination_collateral_pubkey),
        readonly(a.deposit_reserve_pubkey),
        writable(a.obligation_pubkey),
        readonly(a.lending_market_pubkey),
        signer(a.obligation_owner_pubkey),
        signer(a.user_transfer_authority_pubkey),
        readonly(spec_clock_sysvar_id()),
        readonly(spec_token_program_id()),
    ]
}

/// `WithdrawObligationCollateral`.
pub open spec fn withdraw_obligation_collateral_metas(
    a: WithdrawObligationCollateralAccounts,
) -> Seq<AccountMeta> {
    seq![
        writable(a.source_collateral_pubkey),
        writable(a.destination_collateral_pubkey),
        readonly(a.withdraw_reserve_pubkey),
        writable(a.obligation_pubkey),
        readonly(a.lending_market_pubkey),
        signer(a.obligation_owner_pubkey),
        readonly(spec_clock_sysvar_id()),
        readonly(spec_token_program_id()),
    ]
}

/// The nine fixed entries of `BorrowObligationLiquidity`, before the
/// optional host fee receiver.
pub open spec fn borrow_obligation_liquidity_fixed_metas(
    a: BorrowObligationLiquidityAccounts,
) -> Seq<AccountMeta> {
    seq![
        writable(a.source_liquidity_pubkey),
        writable(a.destination_liquidity_pubkey),
        writable(a.borrow_reserve_pubkey),
        writable(a.borrow_reserve_liquidity_fee_receiver_pubkey),
        writable(a.obligation_pubkey),
        readonly(a.lending_market_pubkey),
        signer(a.obligation_owner_pubkey),
        readonly(spec_clock_sysvar_id()),
        readonly(spec_token_program_id()),
    ]
}

/// `BorrowObligationLiquidity`: the fixed schema, and the host fee
/// receiver as the last entry exactly when the caller supplied one.
pub open spec fn borrow_obligation_liquidity_metas(
    a: BorrowObligationLiquidityAccounts,
) -> Seq<AccountMeta> {
    match a.host_fee_receiver_pubkey {
        Some(host) => borrow_obligation_liquidity_fixed_metas(a).push(writable(host)),
        None => borrow_obligation_liquidity_fixed_metas(a),
    }
}

/// `RepayObligationLiquidity`.
pub open spec fn repay_obligation_liquidity_metas(
    a: RepayObligationLiquidityAccounts,
) -> Seq<AccountMeta> {
    seq![
        writable(a.source_liquidity_pubkey),
        writable(a.destination_liquidity_pubkey),
        writable(a.repay_reserve_pubkey),
        writable(a.obligation_pubkey),
        readonly(a.lending_market_pubkey),
        signer(a.user_transfer_authority_pubkey),
        readonly(spec_clock_sysvar_id()),
        readonly(spec_token_program_id()),
    ]
}

/// `LiquidateObligation`.
pub open spec fn liquidate_obligation_metas(a: LiquidateObligationAccounts) -> Seq<AccountMeta> {
    seq![
        writable(a.source_liquidity_pubkey),
        writable(a.destination_collateral_pubkey),
        writable(a.repay_reserve_pubkey),
        writable(a.repay_reserve_liquidity_supply_pubkey),
        readonly(a.withdraw_reserve_pubkey),
        writable(a.withdraw_reserve_collateral_supply_pubkey),
        writable(a.obligation_pubkey),
        readonly(a.lending_market_pubkey),
        signer(a.user_transfer_authority_pubkey),
        readonly(spec_clock_sysvar_id()),
        readonly(spec_token_program_id()),
    ]
}

/// The nine fixed entries of `FlashLoan`, before the receiver program's
/// own accounts.
pub open spec fn flash_loan_fixed_metas(a: FlashLoanAccounts) -> Seq<AccountMeta> {
    seq![
        writable(a.source_liquidity_pubkey),
        writable(a.destination_liquidity_pubkey),
        writable(a.reserve_pubkey),
        writable(a.reserve_liquidity_fee_receiver_pubkey),
        writable(a.host_fee_receiver_pubkey),
        readonly(a.lending_market_pubkey),
        readonly(a.lending_market_authority_pubkey),
        readonly(spec_token_program_id()),
        readonly(a.flash_loan_receiver_program_id),
    ]
}

/// `FlashLoan`: the fixed schema, then the receiver program's accounts
/// exactly as supplied, flags and order untouched.
pub open spec fn flash_loan_metas(a: FlashLoanAccounts) -> Seq<AccountMeta> {
    flash_loan_fixed_metas(a) + a.flash_loan_receiver_program_accounts@
}

/// `DepositReserveLiquidityAndObligationCollateral`.
pub open spec fn deposit_reserve_liquidity_and_obligation_collateral_metas(
    a: DepositReserveLiquidityAndObligationCollateralAccounts,
) -> Seq<AccountMeta> {
    seq![
        writable(a.source_liquidity_pubkey),
        writable(a.user_collateral_pubkey),
        writable(a.reserve_pubkey),
        writable(a.reserve_liquidity_supply_pubkey),
        writable(a.reserve_collateral_mint_pubkey),
        readonly(a.lending_market_pubkey),
        readonly(a.lending_market_authority_pubkey),
        writable(a.destination_deposit_collateral_pubkey),
        writable(a.obligation_pubkey),
        signer(a.obligation_owner_pubkey),
        readonly(a.reserve_liquidity_pyth_oracle_pubkey),
        readonly(a.reserve_liquidity_switchboard_oracle_pubkey),
        signer(a.user_transfer_authority_pubkey),
        readonly(spec_clock_sysvar_id()),
        readonly(spec_token_program_id()),
    ]
}

/// `UpdateReserveConfig`.
pub open spec fn update_reserve_config_metas(a: UpdateReserveConfigAccounts) -> Seq<AccountMeta> {
    seq![
        writable(a.reserve_pubkey),
        readonly(a.lending_market_pubkey),
        readonly(a.lending_market_authority_pubkey),
        signer(a.lending_market_owner_pubkey),
        readonly(a.pyth_product_pubkey),
        readonly(a.pyth_price_pubkey),
        readonly(a.switchboard_feed_pubkey),
    ]
}

/// With no host fee receiver the borrow schema stays at its fixed length
/// of nine; with one it grows by exactly one entry, the receiver,
/// writable and last. Both the encoded metas and the physical list
/// follow this schema, so the two views stay synchronized.
pub proof fn lemma_borrow_optional_receiver(a: BorrowObligationLiquidityAccounts)
    ensures
        a.host_fee_receiver_pubkey is None ==> borrow_obligation_liquidity_metas(a).len() == 9,
        a.host_fee_receiver_pubkey matches Some(host) ==> {
            &&& borrow_obligation_liquidity_metas(a).len() == 10
            &&& borrow_obligation_liquidity_metas(a).last() == writable(host)
            &&& borrow_obligation_liquidity_metas(a).take(9)
                == borrow_obligation_liquidity_fixed_metas(a)
        },
{
    match a.host_fee_receiver_pubkey {
        Some(host) => {
            assert(borrow_obligation_liquidity_metas(a).take(9)
                =~= borrow_obligation_liquidity_fixed_metas(a));
        },
        None => {},
    }
}

/// The account descriptors embedded in a flash-loan instruction and the
/// addresses of the physical account list agree past the fixed prefix:
/// both carry the supplied receiver accounts in the same order.
pub proof fn lemma_flash_loan_tail_agreement(a: FlashLoanAccounts)
    ensures
        flash_loan_metas(a).len() == 9 + a.flash_loan_receiver_program_accounts@.len(),
        flash_loan_metas(a).skip(9) == a.flash_loan_receiver_program_accounts@,
        keys_of(flash_loan_metas(a)).skip(9) == keys_of(
            a.flash_loan_receiver_program_accounts@,
        ),
{
    assert(flash_loan_metas(a).skip(9) =~= a.flash_loan_receiver_program_accounts@);
    assert(keys_of(flash_loan_metas(a)).skip(9) =~= keys_of(
        a.flash_loan_receiver_program_accounts@,
    ));
}

/// A refresh-obligation account list is the obligation and the clock
/// followed by the supplied reserve list in order: no deduplication and
/// no reordering, whatever the list's length.
pub proof fn lemma_refresh_obligation_tail(a: RefreshObligationAccounts)
    ensures
        refresh_obligation_metas(a).len() == 2 + a.reserve_pubkeys@.len(),
        keys_of(refresh_obligation_metas(a)).skip(2) == a.reserve_pubkeys@,
{
    assert(keys_of(refresh_obligation_metas(a)).skip(2) =~= a.reserve_pubkeys@);
}

} // verus!
