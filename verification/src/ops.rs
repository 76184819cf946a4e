//! The account binder and invoker front end: one function per supported
//! lending operation. Each takes the caller's typed account bundle plus
//! the operation's arguments and returns the fully bound request - the
//! encoded instruction and the physical account list, generated from the
//! same schema and proved to agree - with the caller's signer seeds
//! passed through untouched. Dispatching the request is the hosting
//! runtime's part; nothing here retries, caches or mutates state.

use vstd::prelude::*;

use crate::account::{
    clock_sysvar_id, lending_program_id, meta_readonly, meta_signer, meta_writable, readonly,
    rent_sysvar_id, spec_clock_sysvar_id, spec_lending_program_id, token_program_id, writable,
    AccountMeta, Pubkey,
};
use crate::bundles::{
    BorrowObligationLiquidityAccounts, DepositObligationCollateralAccounts,
    DepositReserveLiquidityAccounts, DepositReserveLiquidityAndObligationCollateralAccounts,
    FlashLoanAccounts, InitLendingMarketAccounts, InitObligationAccounts, InitReserveAccounts,
    LiquidateObligationAccounts, RedeemReserveCollateralAccounts, RefreshObligationAccounts,
    RefreshReserveAccounts, RepayObligationLiquidityAccounts, SetLendingMarketOwnerAccounts,
    UpdateReserveConfigAccounts, WithdrawObligationCollateralAccounts,
};
use crate::config::{ReserveConfig, ReserveConfigData};
use crate::schema::{
    borrow_obligation_liquidity_metas, deposit_obligation_collateral_metas,
    deposit_reserve_liquidity_and_obligation_collateral_metas, deposit_reserve_liquidity_metas,
    flash_loan_fixed_metas, flash_loan_metas, init_lending_market_metas, init_obligation_metas,
    init_reserve_metas, keys_of, liquidate_obligation_metas, redeem_reserve_collateral_metas,
    refresh_obligation_metas, refresh_reserve_metas, repay_obligation_liquidity_metas,
    set_lending_market_owner_metas, update_reserve_config_metas,
    withdraw_obligation_collateral_metas,
};
use crate::wire::{
    encode_init_lending_market, encode_init_reserve, encode_set_lending_market_owner,
    encode_tag_only, encode_tagged_amount, encode_update_reserve_config,
    init_lending_market_data, init_reserve_data, set_lending_market_owner_data, tag_only_data,
    tagged_amount_data, update_reserve_config_data, TAG_BORROW_OBLIGATION_LIQUIDITY,
    TAG_DEPOSIT_OBLIGATION_COLLATERAL, TAG_DEPOSIT_RESERVE_LIQUIDITY,
    TAG_DEPOSIT_RESERVE_LIQUIDITY_AND_OBLIGATION_COLLATERAL, TAG_FLASH_LOAN, TAG_INIT_OBLIGATION,
    TAG_LIQUIDATE_OBLIGATION, TAG_REDEEM_RESERVE_COLLATERAL, TAG_REFRESH_OBLIGATION,
    TAG_REFRESH_RESERVE, TAG_REPAY_OBLIGATION_LIQUIDITY, TAG_WITHDRAW_OBLIGATION_COLLATERAL,
};

verus! {

/// A wire-format instruction: the target program, the ordered account
/// metas its handler destructures positionally, and the argument bytes.
#[derive(Clone, PartialEq, Eq, Debug)]
pub struct Instruction {
    pub program_id: Pubkey,
    pub accounts: Vec<AccountMeta>,
    pub data: Vec<u8>,
}

/// The caller's side of one invocation: the operation's typed account
/// bundle, plus the seed byte-sequences that let a program-derived
/// address sign on the caller's behalf (empty when no such authority is
/// delegated). Borrowed for one call; nothing is retained.
pub struct CpiContext<A> {
    pub accounts: A,
    pub signer_seeds: Vec<Vec<Vec<u8>>>,
}

/// A fully bound invocation request, ready for the host's
/// invoke-with-signer-seeds primitive: the encoded instruction, the
/// physical account list in schema order, and the untouched signer
/// seeds.
#[derive(PartialEq, Eq, Debug)]
pub struct CpiRequest {
    pub instruction: Instruction,
    pub account_keys: Vec<Pubkey>,
    pub signer_seeds: Vec<Vec<Vec<u8>>>,
}

impl CpiRequest {
    /// The two representations of one request agree: the physical
    /// account list is the address column of the metas embedded in the
    /// instruction, same length and same order.
    pub open spec fn views_agree(self) -> bool {
        self.account_keys@ == keys_of(self.instruction.accounts@)
    }
}

/// Extracts the physical account list from an account-meta list: the
/// addresses in order, flags dropped.
fn collect_account_keys(metas: &Vec<AccountMeta>) -> (keys: Vec<Pubkey>)
    ensures
        keys@ == keys_of(metas@),
{
    let mut keys: Vec<Pubkey> = Vec::new();
    let mut i: usize = 0;
    while i < metas.len()
        invariant
            i <= metas@.len(),
            keys@ == keys_of(metas@.take(i as int)),
        decreases metas@.len() - i,
    {
        keys.push(metas[i].pubkey);
        i = i + 1;
        proof {
            assert(keys@ =~= keys_of(metas@.take(i as int)));
        }
    }
    proof {
        assert(metas@.take(metas@.len() as int) =~= metas@);
    }
    keys
}

/// Assembles the bound request targeting the lending program.
fn assemble(metas: Vec<AccountMeta>, data: Vec<u8>, signer_seeds: Vec<Vec<Vec<u8>>>) -> (r:
    CpiRequest)
    ensures
        r.instruction.program_id == spec_lending_program_id(),
        r.instruction.accounts@ == metas@,
        r.instruction.data@ == data@,
        r.account_keys@ == keys_of(metas@),
        r.signer_seeds == signer_seeds,
        r.views_agree(),
{
    let account_keys = collect_account_keys(&metas);
    CpiRequest {
        instruction: Instruction { program_id: lending_program_id(), accounts: metas, data },
        account_keys,
        signer_seeds,
    }
}

/// Binds an `InitLendingMarket` call: a new market owned by
/// `ctx.accounts.owner`, quoting prices in `quote_currency`.
pub fn init_lending_market(
    ctx: CpiContext<InitLendingMarketAccounts>,
    quote_currency: [u8; 32],
) -> (r: CpiRequest)
    ensures
        r.instruction.program_id == spec_lending_program_id(),
        r.instruction.accounts@ == init_lending_market_metas(ctx.accounts),
        r.instruction.data@ == init_lending_market_data(ctx.accounts.owner, quote_currency@),
        r.account_keys@ == keys_of(init_lending_market_metas(ctx.accounts)),
        r.signer_seeds == ctx.signer_seeds,
        r.views_agree(),
{
    let CpiContext { accounts, signer_seeds } = ctx;
    let mut metas: Vec<AccountMeta> = Vec::new();
    metas.push(meta_writable(accounts.lending_market_pubkey));
    metas.push(meta_readonly(rent_sysvar_id()));
    metas.push(meta_readonly(token_program_id()));
    metas.push(meta_readonly(accounts.oracle_program_id));
    metas.push(meta_readonly(accounts.switchboard_oracle_program_id));
    proof {
        assert(metas@ =~= init_lending_market_metas(accounts));
    }
    let data = encode_init_lending_market(&accounts.owner, &quote_currency);
    assemble(metas, data, signer_seeds)
}

/// Binds a `SetLendingMarketOwner` call: hands the market to
/// `ctx.accounts.new_owner`, authorized by the current owner's
/// signature.
pub fn set_lending_market_owner(ctx: CpiContext<SetLendingMarketOwnerAccounts>) -> (r: CpiRequest)
    ensures
        r.instruction.program_id == spec_lending_program_id(),
        r.instruction.accounts@ == set_lending_market_owner_metas(ctx.accounts),
        r.instruction.data@ == set_lending_market_owner_data(ctx.accounts.new_owner),
        r.account_keys@ == keys_of(set_lending_market_owner_metas(ctx.accounts)),
        r.signer_seeds == ctx.signer_seeds,
        r.views_agree(),
{
    let CpiContext { accounts, signer_seeds } = ctx;
    let mut metas: Vec<AccountMeta> = Vec::new();
    metas.push(meta_writable(accounts.lending_market_pubkey));
    metas.push(meta_signer(accounts.lending_market_owner));
    proof {
        assert(metas@ =~= set_lending_market_owner_metas(accounts));
    }
    let data = encode_set_lending_market_owner(&accounts.new_owner);
    assemble(metas, data, signer_seeds)
}

/// Binds an `InitReserve` call: creates a reserve funded with
/// `liquidity_amount`, configured by `config_data` completed with the
/// bundle's fee receiver, translated field for field into the external
/// schema.
pub fn init_reserve(
    ctx: CpiContext<InitReserveAccounts>,
    liquidity_amount: u64,
    config_data: ReserveConfigData,
) -> (r: CpiRequest)
    ensures
        r.instruction.program_id == spec_lending_program_id(),
        r.instruction.accounts@ == init_reserve_metas(ctx.accounts),
        r.instruction.data@ == init_reserve_data(
            liquidity_amount,
            config_data.spec_with_fee_receiver(ctx.accounts.fee_receiver_pubkey),
        ),
        r.account_keys@ == keys_of(init_reserve_metas(ctx.accounts)),
        r.signer_seeds == ctx.signer_seeds,
        r.views_agree(),
{
    let CpiContext { accounts, signer_seeds } = ctx;
    let config = config_data.with_fee_receiver(accounts.fee_receiver_pubkey);
    let mut metas: Vec<AccountMeta> = Vec::new();
    metas.push(meta_writable(accounts.source_liquidity_pubkey));
    metas.push(meta_writable(accounts.destination_collateral_pubkey));
    metas.push(meta_writable(accounts.reserve_pubkey));
    metas.push(meta_readonly(accounts.reserve_liquidity_mint_pubkey));
    metas.push(meta_writable(accounts.reserve_liquidity_supply_pubkey));
    metas.push(meta_writable(accounts.fee_receiver_pubkey));
    metas.push(meta_writable(accounts.reserve_collateral_mint_pubkey));
    metas.push(meta_writable(accounts.reserve_collateral_supply_pubkey));
    metas.push(meta_readonly(accounts.pyth_product_pubkey));
    metas.push(meta_readonly(accounts.pyth_price_pubkey));
    metas.push(meta_readonly(accounts.switchboard_feed_pubkey));
    metas.push(meta_readonly(accounts.lending_market_pubkey));
    metas.push(meta_readonly(accounts.lending_market_authority_pubkey));
    metas.push(meta_signer(accounts.lending_market_owner_pubkey));
    metas.push(meta_signer(accounts.user_transfer_authority_pubkey));
    metas.push(meta_readonly(clock_sysvar_id()));
    metas.push(meta_readonly(rent_sysvar_id()));
    metas.push(meta_readonly(token_program_id()));
    proof {
        assert(metas@ =~= init_reserve_metas(accounts));
    }
    let data = encode_init_reserve(liquidity_amount, &config);
    assemble(metas, data, signer_seeds)
}

/// Binds a `RefreshReserve` call: accrues interest and refreshes the
/// reserve's market price from its two oracles.
pub fn refresh_reserve(ctx: CpiContext<RefreshReserveAccounts>) -> (r: CpiRequest)
    ensures
        r.instruction.program_id == spec_lending_program_id(),
        r.instruction.accounts@ == refresh_reserve_metas(ctx.accounts),
        r.instruction.data@ == tag_only_data(TAG_REFRESH_RESERVE),
        r.account_keys@ == keys_of(refresh_reserve_metas(ctx.accounts)),
        r.signer_seeds == ctx.signer_seeds,
        r.views_agree(),
{
    let CpiContext { accounts, signer_seeds } = ctx;
    let mut metas: Vec<AccountMeta> = Vec::new();
    metas.push(meta_writable(accounts.reserve_pubkey));
    metas.push(meta_readonly(accounts.reserve_liquidity_pyth_oracle_pubkey));
    metas.push(meta_readonly(accounts.reserve_liquidity_switchboard_oracle_pubkey));
    metas.push(meta_readonly(clock_sysvar_id()));
    proof {
        assert(metas@ =~= refresh_reserve_metas(accounts));
    }
    let data = encode_tag_only(TAG_REFRESH_RESERVE);
    assemble(metas, data, signer_seeds)
}

/// Binds a `DepositReserveLiquidity` call: deposits `liquidity_amount`
/// into the reserve in exchange for collateral.
pub fn deposit_reserve_liquidity(
    ctx: CpiContext<DepositReserveLiquidityAccounts>,
    liquidity_amount: u64,
) -> (r: CpiRequest)
    ensures
        r.instruction.program_id == spec_lending_program_id(),
        r.instruction.accounts@ == deposit_reserve_liquidity_metas(ctx.accounts),
        r.instruction.data@ == tagged_amount_data(TAG_DEPOSIT_RESERVE_LIQUIDITY, liquidity_amount),
        r.account_keys@ == keys_of(deposit_reserve_liquidity_metas(ctx.accounts)),
        r.signer_seeds == ctx.signer_seeds,
        r.views_agree(),
{
    let CpiContext { accounts, signer_seeds } = ctx;
    let mut metas: Vec<AccountMeta> = Vec::new();
    metas.push(meta_writable(accounts.source_liquidity_pubkey));
    metas.push(meta_writable(accounts.destination_collateral_pubkey));
    metas.push(meta_writable(accounts.reserve_pubkey));
    metas.push(meta_writable(accounts.reserve_liquidity_supply_pubkey));
    metas.push(meta_writable(accounts.reserve_collateral_mint_pubkey));
    metas.push(meta_readonly(accounts.lending_market_pubkey));
    metas.push(meta_signer(accounts.user_transfer_authority_pubkey));
    metas.push(meta_readonly(clock_sysvar_id()));
    metas.push(meta_readonly(token_program_id()));
    proof {
        assert(metas@ =~= deposit_reserve_liquidity_metas(accounts));
    }
    let data = encode_tagged_amount(TAG_DEPOSIT_RESERVE_LIQUIDITY, liquidity_amount);
    assemble(metas, data, signer_seeds)
}

/// Binds a `RedeemReserveCollateral` call: redeems `collateral_amount`
/// of collateral for liquidity.
pub fn redeem_reserve_collateral(
    ctx: CpiContext<RedeemReserveCollateralAccounts>,
    collateral_amount: u64,
) -> (r: CpiRequest)
    ensures
        r.instruction.program_id == spec_lending_program_id(),
        r.instruction.accounts@ == redeem_reserve_collateral_metas(ctx.accounts),
        r.instruction.data@ == tagged_amount_data(
            TAG_REDEEM_RESERVE_COLLATERAL,
            collateral_amount,
        ),
        r.account_keys@ == keys_of(redeem_reserve_collateral_metas(ctx.accounts)),
        r.signer_seeds == ctx.signer_seeds,
        r.views_agree(),
{
    let CpiContext { accounts, signer_seeds } = ctx;
    let mut metas: Vec<AccountMeta> = Vec::new();
    metas.push(meta_writable(accounts.source_collateral_pubkey));
    metas.push(meta_writable(accounts.destination_liquidity_pubkey));
    metas.push(meta_writable(accounts.reserve_pubkey));
    metas.push(meta_writable(accounts.reserve_collateral_mint_pubkey));
    metas.push(meta_writable(accounts.reserve_liquidity_supply_pubkey));
    metas.push(meta_readonly(accounts.lending_market_pubkey));
    metas.push(meta_signer(accounts.user_transfer_authority_pubkey));
    metas.push(meta_readonly(clock_sysvar_id()));
    metas.push(meta_readonly(token_program_id()));
    proof {
        assert(metas@ =~= redeem_reserve_collateral_metas(accounts));
    }
    let data = encode_tagged_amount(TAG_REDEEM_RESERVE_COLLATERAL, collateral_amount);
    assemble(metas, data, signer_seeds)
}

/// Binds an `InitObligation` call: creates an obligation record for the
/// signing owner under the given market.
pub fn init_obligation(ctx: CpiContext<InitObligationAccounts>) -> (r: CpiRequest)
    ensures
        r.instruction.program_id == spec_lending_program_id(),
        r.instruction.accounts@ == init_obligation_metas(ctx.accounts),
        r.instruction.data@ == tag_only_data(TAG_INIT_OBLIGATION),
        r.account_keys@ == keys_of(init_obligation_metas(ctx.accounts)),
        r.signer_seeds == ctx.signer_seeds,
        r.views_agree(),
{
    let CpiContext { accounts, signer_seeds } = ctx;
    let mut metas: Vec<AccountMeta> = Vec::new();
    metas.push(meta_writable(accounts.obligation_pubkey));
    metas.push(meta_readonly(accounts.lending_market_pubkey));
    metas.push(meta_signer(accounts.obligation_owner_pubkey));
    metas.push(meta_readonly(clock_sysvar_id()));
    metas.push(meta_readonly(rent_sysvar_id()));
    metas.push(meta_readonly(token_program_id()));
    proof {
        assert(metas@ =~= init_obligation_metas(accounts));
    }
    let data = encode_tag_only(TAG_INIT_OBLIGATION);
    assemble(metas, data, signer_seeds)
}

/// Binds a `RefreshObligation` call: refreshes the obligation against
/// the supplied deposit and borrow reserves, appended after the fixed
/// prefix in caller order, never deduplicated or reordered.
pub fn refresh_obligation(ctx: CpiContext<RefreshObligationAccounts>) -> (r: CpiRequest)
    ensures
        r.instruction.program_id == spec_lending_program_id(),
        r.instruction.accounts@ == refresh_obligation_metas(ctx.accounts),
        r.instruction.data@ == tag_only_data(TAG_REFRESH_OBLIGATION),
        r.account_keys@ == keys_of(refresh_obligation_metas(ctx.accounts)),
        r.signer_seeds == ctx.signer_seeds,
        r.views_agree(),
{
    let CpiContext { accounts, signer_seeds } = ctx;
    let mut metas: Vec<AccountMeta> = Vec::new();
    metas.push(meta_writable(accounts.obligation_pubkey));
    metas.push(meta_readonly(clock_sysvar_id()));
    let mut i: usize = 0;
    while i < accounts.reserve_pubkeys.len()
        invariant
            i <= accounts.reserve_pubkeys@.len(),
            metas@ == seq![
                writable(accounts.obligation_pubkey),
                readonly(spec_clock_sysvar_id()),
            ] + accounts.reserve_pubkeys@.take(i as int).map_values(|k: Pubkey| readonly(k)),
        decreases accounts.reserve_pubkeys@.len() - i,
    {
        metas.push(meta_readonly(accounts.reserve_pubkeys[i]));
        i = i + 1;
        proof {
            assert(metas@ =~= seq![
                writable(accounts.obligation_pubkey),
                readonly(spec_clock_sysvar_id()),
            ] + accounts.reserve_pubkeys@.take(i as int).map_values(|k: Pubkey| readonly(k)));
        }
    }
    proof {
        assert(accounts.reserve_pubkeys@.take(accounts.reserve_pubkeys@.len() as int)
            =~= accounts.reserve_pubkeys@);
        assert(metas@ =~= refresh_obligation_metas(accounts));
    }
    let data = encode_tag_only(TAG_REFRESH_OBLIGATION);
    assemble(metas, data, signer_seeds)
}

/// Binds a `DepositObligationCollateral` call: moves
/// `collateral_amount` of collateral into the obligation.
pub fn deposit_obligation_collateral(
    ctx: CpiContext<DepositObligationCollateralAccounts>,
    collateral_amount: u64,
) -> (r: CpiRequest)
    ensures
        r.instruction.program_id == spec_lending_program_id(),
        r.instruction.accounts@ == deposit_obligation_collateral_metas(ctx.accounts),
        r.instruction.data@ == tagged_amount_data(
            TAG_DEPOSIT_OBLIGATION_COLLATERAL,
            collateral_amount,
        ),
        r.account_keys@ == keys_of(deposit_obligation_collateral_metas(ctx.accounts)),
        r.signer_seeds == ctx.signer_seeds,
        r.views_agree(),
{
    let CpiContext { accounts, signer_seeds } = ctx;
    let mut metas: Vec<AccountMeta> = Vec::new();
    metas.push(meta_writable(accounts.source_collateral_pubkey));
    metas.push(meta_writable(accounts.destination_collateral_pubkey));
    metas.push(meta_readonly(accounts.deposit_reserve_pubkey));
    metas.push(meta_writable(accounts.obligation_pubkey));
    metas.push(meta_readonly(accounts.lending_market_pubkey));
    metas.push(meta_signer(accounts.obligation_owner_pubkey));
    metas.push(meta_signer(accounts.user_transfer_authority_pubkey));
    metas.push(meta_readonly(clock_sysvar_id()));
    metas.push(meta_readonly(token_program_id()));
    proof {
        assert(metas@ =~= deposit_obligation_collateral_metas(accounts));
    }
    let data = encode_tagged_amount(TAG_DEPOSIT_OBLIGATION_COLLATERAL, collateral_amount);
    assemble(metas, data, signer_seeds)
}

/// Binds a `WithdrawObligationCollateral` call: withdraws
/// `collateral_amount` of collateral from the obligation.
pub fn withdraw_obligation_collateral(
    ctx: CpiContext<WithdrawObligationCollateralAccounts>,
    collateral_amount: u64,
) -> (r: CpiRequest)
    ensures
        r.instruction.program_id == spec_lending_program_id(),
        r.instruction.accounts@ == withdraw_obligation_collateral_metas(ctx.accounts),
        r.instruction.data@ == tagged_amount_data(
            TAG_WITHDRAW_OBLIGATION_COLLATERAL,
            collateral_amount,
        ),
        r.account_keys@ == keys_of(withdraw_obligation_collateral_metas(ctx.accounts)),
        r.signer_seeds == ctx.signer_seeds,
        r.views_agree(),
{
    let CpiContext { accounts, signer_seeds } = ctx;
    let mut metas: Vec<AccountMeta> = Vec::new();
    metas.push(meta_writable(accounts.source_collateral_pubkey));
    metas.push(meta_writable(accounts.destination_collateral_pubkey));
    metas.push(meta_readonly(accounts.withdraw_reserve_pubkey));
    metas.push(meta_writable(accounts.obligation_pubkey));
    metas.push(meta_readonly(accounts.lending_market_pubkey));
    metas.push(meta_signer(accounts.obligation_owner_pubkey));
    metas.push(meta_readonly(clock_sysvar_id()));
    metas.push(meta_readonly(token_program_id()));
    proof {
        assert(metas@ =~= withdraw_obligation_collateral_metas(accounts));
    }
    let data = encode_tagged_amount(TAG_WITHDRAW_OBLIGATION_COLLATERAL, collateral_amount);
    assemble(metas, data, signer_seeds)
}

/// Binds a `BorrowObligationLiquidity` call: borrows `liquidity_amount`
/// against the obligation's collateral. When the bundle carries a host
/// fee receiver it becomes the last account of both views; when it does
/// not, both views keep the fixed schema length.
pub fn borrow_obligation_liquidity(
    ctx: CpiContext<BorrowObligationLiquidityAccounts>,
    liquidity_amount: u64,
) -> (r: CpiRequest)
    ensures
        r.instruction.program_id == spec_lending_program_id(),
        r.instruction.accounts@ == borrow_obligation_liquidity_metas(ctx.accounts),
        r.instruction.data@ == tagged_amount_data(
            TAG_BORROW_OBLIGATION_LIQUIDITY,
            liquidity_amount,
        ),
        r.account_keys@ == keys_of(borrow_obligation_liquidity_metas(ctx.accounts)),
        r.signer_seeds == ctx.signer_seeds,
        r.views_agree(),
{
    let CpiContext { accounts, signer_seeds } = ctx;
    let mut metas: Vec<AccountMeta> = Vec::new();
    metas.push(meta_writable(accounts.source_liquidity_pubkey));
    metas.push(meta_writable(accounts.destination_liquidity_pubkey));
    metas.push(meta_writable(accounts.borrow_reserve_pubkey));
    metas.push(meta_writable(accounts.borrow_reserve_liquidity_fee_receiver_pubkey));
    metas.push(meta_writable(accounts.obligation_pubkey));
    metas.push(meta_readonly(accounts.lending_market_pubkey));
    metas.push(meta_signer(accounts.obligation_owner_pubkey));
    metas.push(meta_readonly(clock_sysvar_id()));
    metas.push(meta_readonly(token_program_id()));
    match accounts.host_fee_receiver_pubkey {
        Some(host) => {
            metas.push(meta_writable(host));
        },
        None => {},
    }
    proof {
        assert(metas@ =~= borrow_obligation_liquidity_metas(accounts));
    }
    let data = encode_tagged_amount(TAG_BORROW_OBLIGATION_LIQUIDITY, liquidity_amount);
    assemble(metas, data, signer_seeds)
}

/// Binds a `RepayObligationLiquidity` call: repays `liquidity_amount`
/// of the obligation's borrowed liquidity.
pub fn repay_obligation_liquidity(
    ctx: CpiContext<RepayObligationLiquidityAccounts>,
    liquidity_amount: u64,
) -> (r: CpiRequest)
    ensures
        r.instruction.program_id == spec_lending_program_id(),
        r.instruction.accounts@ == repay_obligation_liquidity_metas(ctx.accounts),
        r.instruction.data@ == tagged_amount_data(
            TAG_REPAY_OBLIGATION_LIQUIDITY,
            liquidity_amount,
        ),
        r.account_keys@ == keys_of(repay_obligation_liquidity_metas(ctx.accounts)),
        r.signer_seeds == ctx.signer_seeds,
        r.views_agree(),
{
    let CpiContext { accounts, signer_seeds } = ctx;
    let mut metas: Vec<AccountMeta> = Vec::new();
    metas.push(meta_writable(accounts.source_liquidity_pubkey));
    metas.push(meta_writable(accounts.destination_liquidity_pubkey));
    metas.push(meta_writable(accounts.repay_reserve_pubkey));
    metas.push(meta_writable(accounts.obligation_pubkey));
    metas.push(meta_readonly(accounts.lending_market_pubkey));
    metas.push(meta_signer(accounts.user_transfer_authority_pubkey));
    metas.push(meta_readonly(clock_sysvar_id()));
    metas.push(meta_readonly(token_program_id()));
    proof {
        assert(metas@ =~= repay_obligation_liquidity_metas(accounts));
    }
    let data = encode_tagged_amount(TAG_REPAY_OBLIGATION_LIQUIDITY, liquidity_amount);
    assemble(metas, data, signer_seeds)
}

/// Binds a `LiquidateObligation` call: repays part of an unhealthy
/// obligation's debt and seizes collateral at a discount.
pub fn liquidate_obligation(
    ctx: CpiContext<LiquidateObligationAccounts>,
    liquidity_amount: u64,
) -> (r: CpiRequest)
    ensures
        r.instruction.program_id == spec_lending_program_id(),
        r.instruction.accounts@ == liquidate_obligation_metas(ctx.accounts),
        r.instruction.data@ == tagged_amount_data(TAG_LIQUIDATE_OBLIGATION, liquidity_amount),
        r.account_keys@ == keys_of(liquidate_obligation_metas(ctx.accounts)),
        r.signer_seeds == ctx.signer_seeds,
        r.views_agree(),
{
    let CpiContext { accounts, signer_seeds } = ctx;
    let mut metas: Vec<AccountMeta> = Vec::new();
    metas.push(meta_writable(accounts.source_liquidity_pubkey));
    metas.push(meta_writable(accounts.destination_collateral_pubkey));
    metas.push(meta_writable(accounts.repay_reserve_pubkey));
    metas.push(meta_writable(accounts.repay_reserve_liquidity_supply_pubkey));
    metas.push(meta_readonly(accounts.withdraw_reserve_pubkey));
    metas.push(meta_writable(accounts.withdraw_reserve_collateral_supply_pubkey));
    metas.push(meta_writable(accounts.obligation_pubkey));
    metas.push(meta_readonly(accounts.lending_market_pubkey));
    metas.push(meta_signer(accounts.user_transfer_authority_pubkey));
    metas.push(meta_readonly(clock_sysvar_id()));
    metas.push(meta_readonly(token_program_id()));
    proof {
        assert(metas@ =~= liquidate_obligation_metas(accounts));
    }
    let data = encode_tagged_amount(TAG_LIQUIDATE_OBLIGATION, liquidity_amount);
    assemble(metas, data, signer_seeds)
}

/// Binds a `FlashLoan` call: borrows `amount` for the duration of the
/// invocation, handing control to the receiver program. The receiver's
/// accounts are both embedded in the instruction and appended to the
/// physical list, in the same order with the same flags.
pub fn flash_loan(ctx: CpiContext<FlashLoanAccounts>, amount: u64) -> (r: CpiRequest)
    ensures
        r.instruction.program_id == spec_lending_program_id(),
        r.instruction.accounts@ == flash_loan_metas(ctx.accounts),
        r.instruction.data@ == tagged_amount_data(TAG_FLASH_LOAN, amount),
        r.account_keys@ == keys_of(flash_loan_metas(ctx.accounts)),
        r.signer_seeds == ctx.signer_seeds,
        r.views_agree(),
{
    let CpiContext { accounts, signer_seeds } = ctx;
    let mut metas: Vec<AccountMeta> = Vec::new();
    metas.push(meta_writable(accounts.source_liquidity_pubkey));
    metas.push(meta_writable(accounts.destination_liquidity_pubkey));
    metas.push(meta_writable(accounts.reserve_pubkey));
    metas.push(meta_writable(accounts.reserve_liquidity_fee_receiver_pubkey));
    metas.push(meta_writable(accounts.host_fee_receiver_pubkey));
    metas.push(meta_readonly(accounts.lending_market_pubkey));
    metas.push(meta_readonly(accounts.lending_market_authority_pubkey));
    metas.push(meta_readonly(token_program_id()));
    metas.push(meta_readonly(accounts.flash_loan_receiver_program_id));
    proof {
        assert(metas@ =~= flash_loan_fixed_metas(accounts));
    }
    let mut tail = accounts.flash_loan_receiver_program_accounts;
    metas.append(&mut tail);
    proof {
        assert(metas@ =~= flash_loan_metas(accounts));
    }
    let data = encode_tagged_amount(TAG_FLASH_LOAN, amount);
    assemble(metas, data, signer_seeds)
}

/// Binds a `DepositReserveLiquidityAndObligationCollateral` call: the
/// combined deposit-and-collateralize operation.
pub fn deposit_reserve_liquidity_and_obligation_collateral(
    ctx: CpiContext<DepositReserveLiquidityAndObligationCollateralAccounts>,
    liquidity_amount: u64,
) -> (r: CpiRequest)
    ensures
        r.instruction.program_id == spec_lending_program_id(),
        r.instruction.accounts@ == deposit_reserve_liquidity_and_obligation_collateral_metas(
            ctx.accounts,
        ),
        r.instruction.data@ == tagged_amount_data(
            TAG_DEPOSIT_RESERVE_LIQUIDITY_AND_OBLIGATION_COLLATERAL,
            liquidity_amount,
        ),
        r.account_keys@ == keys_of(
            deposit_reserve_liquidity_and_obligation_collateral_metas(ctx.accounts),
        ),
        r.signer_seeds == ctx.signer_seeds,
        r.views_agree(),
{
    let CpiContext { accounts, signer_seeds } = ctx;
    let mut metas: Vec<AccountMeta> = Vec::new();
    metas.push(meta_writable(accounts.source_liquidity_pubkey));
    metas.push(meta_writable(accounts.user_collateral_pubkey));
    metas.push(meta_writable(accounts.reserve_pubkey));
    metas.push(meta_writable(accounts.reserve_liquidity_supply_pubkey));
    metas.push(meta_writable(accounts.reserve_collateral_mint_pubkey));
    metas.push(meta_readonly(accounts.lending_market_pubkey));
    metas.push(meta_readonly(accounts.lending_market_authority_pubkey));
    metas.push(meta_writable(accounts.destination_deposit_collateral_pubkey));
    metas.push(meta_writable(accounts.obligation_pubkey));
    metas.push(meta_signer(accounts.obligation_owner_pubkey));
    metas.push(meta_readonly(accounts.reserve_liquidity_pyth_oracle_pubkey));
    metas.push(meta_readonly(accounts.reserve_liquidity_switchboard_oracle_pubkey));
    metas.push(meta_signer(accounts.user_transfer_authority_pubkey));
    metas.push(meta_readonly(clock_sysvar_id()));
    metas.push(meta_readonly(token_program_id()));
    proof {
        assert(metas@ =~= deposit_reserve_liquidity_and_obligation_collateral_metas(accounts));
    }
    let data = encode_tagged_amount(
        TAG_DEPOSIT_RESERVE_LIQUIDITY_AND_OBLIGATION_COLLATERAL,
        liquidity_amount,
    );
    assemble(metas, data, signer_seeds)
}

/// Binds an `UpdateReserveConfig` call: replaces the reserve's
/// configuration record, authorized by the market owner's signature.
pub fn update_reserve_config(
    ctx: CpiContext<UpdateReserveConfigAccounts>,
    config: ReserveConfig,
) -> (r: CpiRequest)
    ensures
        r.instruction.program_id == spec_lending_program_id(),
        r.instruction.accounts@ == update_reserve_config_metas(ctx.accounts),
        r.instruction.data@ == update_reserve_config_data(config),
        r.account_keys@ == keys_of(update_reserve_config_metas(ctx.accounts)),
        r.signer_seeds == ctx.signer_seeds,
        r.views_agree(),
{
    let CpiContext { accounts, signer_seeds } = ctx;
    let mut metas: Vec<AccountMeta> = Vec::new();
    metas.push(meta_writable(accounts.reserve_pubkey));
    metas.push(meta_readonly(accounts.lending_market_pubkey));
    metas.push(meta_readonly(accounts.lending_market_authority_pubkey));
    metas.push(meta_signer(accounts.lending_market_owner_pubkey));
    metas.push(meta_readonly(accounts.pyth_product_pubkey));
    metas.push(meta_readonly(accounts.pyth_price_pubkey));
    metas.push(meta_readonly(accounts.switchboard_feed_pubkey));
    proof {
        assert(metas@ =~= update_reserve_config_metas(accounts));
    }
    let data = encode_update_reserve_config(&config);
    assemble(metas, data, signer_seeds)
}

} // verus!
