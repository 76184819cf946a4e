//! The lending program's binary instruction format: one discriminant byte
//! followed by the operation's arguments, integers little-endian and
//! addresses as their raw 32 bytes. This crate reproduces the published
//! encoding exactly; any drift is a protocol-compatibility defect.

use vstd::prelude::*;
use vstd::bytes::{
    lemma_auto_spec_u64_to_from_le_bytes, spec_u64_from_le_bytes, spec_u64_to_le_bytes,
    u64_from_le_bytes, u64_to_le_bytes,
};
use vstd::slice::slice_subrange;

use crate::account::Pubkey;
use crate::config::ReserveConfig;

verus! {

/// Discriminant of `InitLendingMarket`.
pub const TAG_INIT_LENDING_MARKET: u8 = 0;

/// Discriminant of `SetLendingMarketOwner`.
pub const TAG_SET_LENDING_MARKET_OWNER: u8 = 1;

/// Discriminant of `InitReserve`.
pub const TAG_INIT_RESERVE: u8 = 2;

/// Discriminant of `RefreshReserve`.
pub const TAG_REFRESH_RESERVE: u8 = 3;

/// Discriminant of `DepositReserveLiquidity`.
pub const TAG_DEPOSIT_RESERVE_LIQUIDITY: u8 = 4;

/// Discriminant of `RedeemReserveCollateral`.
pub const TAG_REDEEM_RESERVE_COLLATERAL: u8 = 5;

/// Discriminant of `InitObligation`.
pub const TAG_INIT_OBLIGATION: u8 = 6;

/// Discriminant of `RefreshObligation`.
pub const TAG_REFRESH_OBLIGATION: u8 = 7;

/// Discriminant of `DepositObligationCollateral`.
pub const TAG_DEPOSIT_OBLIGATION_COLLATERAL: u8 = 8;

/// Discriminant of `WithdrawObligationCollateral`.
pub const TAG_WITHDRAW_OBLIGATION_COLLATERAL: u8 = 9;

/// Discriminant of `BorrowObligationLiquidity`.
pub const TAG_BORROW_OBLIGATION_LIQUIDITY: u8 = 10;

/// Discriminant of `RepayObligationLiquidity`.
pub const TAG_REPAY_OBLIGATION_LIQUIDITY: u8 = 11;

/// Discriminant of `LiquidateObligation`.
pub const TAG_LIQUIDATE_OBLIGATION: u8 = 12;

/// Discriminant of `FlashLoan`.
pub const TAG_FLASH_LOAN: u8 = 13;

/// Discriminant of `DepositReserveLiquidityAndObligationCollateral`.
pub const TAG_DEPOSIT_RESERVE_LIQUIDITY_AND_OBLIGATION_COLLATERAL: u8 = 14;

/// Discriminant of `UpdateReserveConfig`.
pub const TAG_UPDATE_RESERVE_CONFIG: u8 = 16;

/// Argument bytes of an operation that carries no argument: the
/// discriminant alone.
pub open spec fn tag_only_data(tag: u8) -> Seq<u8> {
    seq![tag]
}

/// Argument bytes of an operation whose single argument is a token
/// amount: the discriminant, then the amount little-endian.
pub open spec fn tagged_amount_data(tag: u8, amount: u64) -> Seq<u8> {
    seq![tag] + spec_u64_to_le_bytes(amount)
}

/// Argument bytes of `InitLendingMarket`: the market owner's address,
/// then the 32-byte quote currency descriptor.
pub open spec fn init_lending_market_data(owner: Pubkey, quote_currency: Seq<u8>) -> Seq<u8> {
    seq![TAG_INIT_LENDING_MARKET] + owner@ + quote_currency
}

/// Argument bytes of `SetLendingMarketOwner`: the new owner's address.
pub open spec fn set_lending_market_owner_data(new_owner: Pubkey) -> Seq<u8> {
    seq![TAG_SET_LENDING_MARKET_OWNER] + new_owner@
}

/// A reserve configuration's wire image, field by field in schema order.
pub open spec fn reserve_config_bytes(c: ReserveConfig) -> Seq<u8> {
    seq![
        c.optimal_utilization_rate,
        c.loan_to_value_ratio,
        c.liquidation_bonus,
        c.liquidation_threshold,
        c.min_borrow_rate,
        c.optimal_borrow_rate,
        c.max_borrow_rate,
    ] + spec_u64_to_le_bytes(c.fees.borrow_fee_wad)
        + spec_u64_to_le_bytes(c.fees.flash_loan_fee_wad)
        + seq![c.fees.host_fee_percentage]
        + spec_u64_to_le_bytes(c.deposit_limit)
        + spec_u64_to_le_bytes(c.borrow_limit)
        + c.fee_receiver@
}

/// Argument bytes of `InitReserve`: the initial liquidity amount, then
/// the configuration record.
pub open spec fn init_reserve_data(liquidity_amount: u64, c: ReserveConfig) -> Seq<u8> {
    seq![TAG_INIT_RESERVE] + spec_u64_to_le_bytes(liquidity_amount) + reserve_config_bytes(c)
}

/// Argument bytes of `UpdateReserveConfig`: the configuration record.
pub open spec fn update_reserve_config_data(c: ReserveConfig) -> Seq<u8> {
    seq![TAG_UPDATE_RESERVE_CONFIG] + reserve_config_bytes(c)
}

/// Appends an address's raw 32 bytes.
pub fn push_pubkey(data: &mut Vec<u8>, k: &Pubkey)
    ensures
        final(data)@ == old(data)@ + k@,
{
    let mut i: usize = 0;
    while i < 32
        invariant
            i <= 32,
            data@ == old(data)@ + k@.take(i as int),
        decreases 32 - i,
    {
        data.push(k.bytes[i]);
        i = i + 1;
        proof {
            assert(data@ =~= old(data)@ + k@.take(i as int));
        }
    }
    proof {
        assert(data@ =~= old(data)@ + k@);
    }
}

/// Appends a `u64` little-endian.
pub fn push_u64_le(data: &mut Vec<u8>, x: u64)
    ensures
        final(data)@ == old(data)@ + spec_u64_to_le_bytes(x),
{
    let mut bytes = u64_to_le_bytes(x);
    data.append(&mut bytes);
}

/// Encodes an argument-free operation.
pub fn encode_tag_only(tag: u8) -> (d: Vec<u8>)
    ensures
        d@ == tag_only_data(tag),
{
    let mut d: Vec<u8> = Vec::new();
    d.push(tag);
    proof {
        assert(d@ =~= tag_only_data(tag));
    }
    d
}

/// Encodes an operation whose single argument is a token amount.
pub fn encode_tagged_amount(tag: u8, amount: u64) -> (d: Vec<u8>)
    ensures
        d@ == tagged_amount_data(tag, amount),
{
    let mut d: Vec<u8> = Vec::new();
    d.push(tag);
    push_u64_le(&mut d, amount);
    proof {
        assert(d@ =~= tagged_amount_data(tag, amount));
    }
    d
}

/// Encodes `InitLendingMarket`'s arguments.
pub fn encode_init_lending_market(owner: &Pubkey, quote_currency: &[u8; 32]) -> (d: Vec<u8>)
    ensures
        d@ == init_lending_market_data(*owner, quote_currency@),
{
    let mut d: Vec<u8> = Vec::new();
    d.push(TAG_INIT_LENDING_MARKET);
    push_pubkey(&mut d, owner);
    let quote = Pubkey { bytes: *quote_currency };
    push_pubkey(&mut d, &quote);
    proof {
        assert(d@ =~= init_lending_market_data(*owner, quote_currency@));
    }
    d
}

/// Encodes `SetLendingMarketOwner`'s arguments.
pub fn encode_set_lending_market_owner(new_owner: &Pubkey) -> (d: Vec<u8>)
    ensures
        d@ == set_lending_market_owner_data(*new_owner),
{
    let mut d: Vec<u8> = Vec::new();
    d.push(TAG_SET_LENDING_MARKET_OWNER);
    push_pubkey(&mut d, new_owner);
    proof {
        assert(d@ =~= set_lending_market_owner_data(*new_owner));
    }
    d
}

/// Appends a reserve configuration's wire image.
pub fn push_reserve_config(data: &mut Vec<u8>, c: &ReserveConfig)
    ensures
        final(data)@ == old(data)@ + reserve_config_bytes(*c),
{
    data.push(c.optimal_utilization_rate);
    data.push(c.loan_to_value_ratio);
    data.push(c.liquidation_bonus);
    data.push(c.liquidation_threshold);
    data.push(c.min_borrow_rate);
    data.push(c.optimal_borrow_rate);
    data.push(c.max_borrow_rate);
    push_u64_le(data, c.fees.borrow_fee_wad);
    push_u64_le(data, c.fees.flash_loan_fee_wad);
    data.push(c.fees.host_fee_percentage);
    push_u64_le(data, c.deposit_limit);
    push_u64_le(data, c.borrow_limit);
    push_pubkey(data, &c.fee_receiver);
    proof {
        assert(data@ =~= old(data)@ + reserve_config_bytes(*c));
    }
}

/// Encodes `InitReserve`'s arguments.
pub fn encode_init_reserve(liquidity_amount: u64, c: &ReserveConfig) -> (d: Vec<u8>)
    ensures
        d@ == init_reserve_data(liquidity_amount, *c),
{
    let mut d: Vec<u8> = Vec::new();
    d.push(TAG_INIT_RESERVE);
    push_u64_le(&mut d, liquidity_amount);
    push_reserve_config(&mut d, c);
    proof {
        assert(d@ =~= init_reserve_data(liquidity_amount, *c));
    }
    d
}

/// Encodes `UpdateReserveConfig`'s arguments.
pub fn encode_update_reserve_config(c: &ReserveConfig) -> (d: Vec<u8>)
    ensures
        d@ == update_reserve_config_data(*c),
{
    let mut d: Vec<u8> = Vec::new();
    d.push(TAG_UPDATE_RESERVE_CONFIG);
    push_reserve_config(&mut d, c);
    proof {
        assert(d@ =~= update_reserve_config_data(*c));
    }
    d
}

/// Reads the token amount back out of a discriminant-plus-amount
/// argument section; `None` when the section is not exactly that shape.
pub fn decode_amount_argument(data: &[u8]) -> (r: Option<u64>)
    ensures
        data@.len() == 9 ==> r == Some(spec_u64_from_le_bytes(data@.subrange(1, 9))),
        data@.len() != 9 ==> r is None,
{
    if data.len() == 9 {
        let amount = u64_from_le_bytes(slice_subrange(data, 1, 9));
        Some(amount)
    } else {
        None
    }
}

/// A discriminant-plus-amount argument section is 9 bytes long and its
/// amount decodes back to the amount that was encoded.
pub proof fn lemma_amount_data_roundtrip(tag: u8, amount: u64)
    ensures
        tagged_amount_data(tag, amount).len() == 9,
        spec_u64_from_le_bytes(tagged_amount_data(tag, amount).subrange(1, 9)) == amount,
{
    lemma_auto_spec_u64_to_from_le_bytes();
    assert(tagged_amount_data(tag, amount).subrange(1, 9) =~= spec_u64_to_le_bytes(amount));
}

} // verus!
