//! Wire-format conformance: the encoded argument bytes, byte for byte.

use solend_cpi::account::{clock_sysvar_id, rent_sysvar_id, token_program_id};
use solend_cpi::wire::decode_amount_argument;
use solend_cpi::{
    deposit_reserve_liquidity, init_lending_market, init_reserve, refresh_obligation,
    refresh_reserve, set_lending_market_owner, update_reserve_config, CpiContext,
    DepositReserveLiquidityAccounts, InitLendingMarketAccounts, InitReserveAccounts, Pubkey,
    RefreshObligationAccounts, RefreshReserveAccounts, ReserveConfig, ReserveConfigData,
    ReserveFees, SetLendingMarketOwnerAccounts, UpdateReserveConfigAccounts,
};

fn key(b: u8) -> Pubkey {
    Pubkey::new([b; 32])
}

fn ctx<A>(accounts: A) -> CpiContext<A> {
    CpiContext { accounts, signer_seeds: Vec::new() }
}

#[test]
fn init_lending_market_data_bytes() {
    let owner = key(1);
    let quote = *b"USD\0\0\0\0\0\0\0\0\0\0\0\0\0\0\0\0\0\0\0\0\0\0\0\0\0\0\0\0\0";
    let a = InitLendingMarketAccounts {
        owner,
        lending_market_pubkey: key(2),
        oracle_program_id: key(3),
        switchboard_oracle_program_id: key(4),
    };
    let r = init_lending_market(ctx(a), quote);
    let mut expected = vec![0u8];
    expected.extend_from_slice(&owner.bytes);
    expected.extend_from_slice(&quote);
    assert_eq!(r.instruction.data, expected);
}

#[test]
fn set_lending_market_owner_data_bytes() {
    let new_owner = key(9);
    let a = SetLendingMarketOwnerAccounts {
        new_owner,
        lending_market_pubkey: key(2),
        lending_market_owner: key(3),
    };
    let r = set_lending_market_owner(ctx(a));
    let mut expected = vec![1u8];
    expected.extend_from_slice(&new_owner.bytes);
    assert_eq!(r.instruction.data, expected);
}

#[test]
fn tag_only_operations_encode_one_byte() {
    let refresh = refresh_reserve(ctx(RefreshReserveAccounts {
        reserve_pubkey: key(1),
        reserve_liquidity_pyth_oracle_pubkey: key(2),
        reserve_liquidity_switchboard_oracle_pubkey: key(3),
    }));
    assert_eq!(refresh.instruction.data, vec![3u8]);
    let refresh_ob = refresh_obligation(ctx(RefreshObligationAccounts {
        obligation_pubkey: key(1),
        reserve_pubkeys: vec![key(2)],
    }));
    assert_eq!(refresh_ob.instruction.data, vec![7u8]);
}

#[test]
fn amount_operations_encode_tag_then_little_endian_amount() {
    let amount: u64 = 0x0102_0304_0506_0708;
    let r = deposit_reserve_liquidity(
        ctx(DepositReserveLiquidityAccounts {
            source_liquidity_pubkey: key(1),
            destination_collateral_pubkey: key(2),
            reserve_pubkey: key(3),
            reserve_liquidity_supply_pubkey: key(4),
            reserve_collateral_mint_pubkey: key(5),
            lending_market_pubkey: key(6),
            user_transfer_authority_pubkey: key(7),
        }),
        amount,
    );
    let mut expected = vec![4u8];
    expected.extend_from_slice(&amount.to_le_bytes());
    assert_eq!(r.instruction.data, expected);
    assert_eq!(decode_amount_argument(r.instruction.data.as_slice()), Some(amount));
}

#[test]
fn decode_amount_argument_rejects_wrong_shapes() {
    assert_eq!(decode_amount_argument(&[]), None);
    assert_eq!(decode_amount_argument(&[4u8]), None);
    assert_eq!(decode_amount_argument(&[4u8; 10]), None);
}

fn sample_config() -> ReserveConfigData {
    ReserveConfigData {
        optimal_utilization_rate: 80,
        loan_to_value_ratio: 50,
        liquidation_bonus: 5,
        liquidation_threshold: 55,
        min_borrow_rate: 0,
        optimal_borrow_rate: 4,
        max_borrow_rate: 30,
        fees: ReserveFees {
            borrow_fee_wad: 100_000_000_000_000,
            flash_loan_fee_wad: 3_000_000_000_000_000,
            host_fee_percentage: 20,
        },
        deposit_limit: 1_000_000_000,
        borrow_limit: u64::MAX,
    }
}

fn expected_config_bytes(c: &ReserveConfigData, fee_receiver: &Pubkey) -> Vec<u8> {
    let mut out = vec![
        c.optimal_utilization_rate,
        c.loan_to_value_ratio,
        c.liquidation_bonus,
        c.liquidation_threshold,
        c.min_borrow_rate,
        c.optimal_borrow_rate,
        c.max_borrow_rate,
    ];
    out.extend_from_slice(&c.fees.borrow_fee_wad.to_le_bytes());
    out.extend_from_slice(&c.fees.flash_loan_fee_wad.to_le_bytes());
    out.push(c.fees.host_fee_percentage);
    out.extend_from_slice(&c.deposit_limit.to_le_bytes());
    out.extend_from_slice(&c.borrow_limit.to_le_bytes());
    out.extend_from_slice(&fee_receiver.bytes);
    out
}

#[test]
fn init_reserve_data_bytes() {
    let fee_receiver = key(14);
    let a = InitReserveAccounts {
        source_liquidity_pubkey: key(1),
        destination_collateral_pubkey: key(2),
        reserve_pubkey: key(3),
        reserve_liquidity_mint_pubkey: key(4),
        reserve_liquidity_supply_pubkey: key(5),
        reserve_collateral_mint_pubkey: key(6),
        reserve_collateral_supply_pubkey: key(7),
        pyth_product_pubkey: key(8),
        pyth_price_pubkey: key(9),
        switchboard_feed_pubkey: key(10),
        lending_market_pubkey: key(11),
        lending_market_owner_pubkey: key(12),
        user_transfer_authority_pubkey: key(13),
        fee_receiver_pubkey: fee_receiver,
        lending_market_authority_pubkey: key(15),
    };
    let data = sample_config();
    let amount: u64 = 42;
    let r = init_reserve(ctx(a), amount, data);
    let mut expected = vec![2u8];
    expected.extend_from_slice(&amount.to_le_bytes());
    expected.extend_from_slice(&expected_config_bytes(&data, &fee_receiver));
    assert_eq!(r.instruction.data, expected);
    assert_eq!(r.instruction.data.len(), 81);
    // every configuration field is carried over unchanged; in particular
    // the optimal borrow rate is its own field, not the utilization rate
    assert_eq!(r.instruction.data[14], 4);
    assert_eq!(r.instruction.data[9], 80);
}

#[test]
fn update_reserve_config_data_bytes() {
    let a = UpdateReserveConfigAccounts {
        reserve_pubkey: key(1),
        lending_market_pubkey: key(2),
        lending_market_authority_pubkey: key(3),
        lending_market_owner_pubkey: key(4),
        pyth_product_pubkey: key(5),
        pyth_price_pubkey: key(6),
        switchboard_feed_pubkey: key(7),
    };
    let data = sample_config();
    let fee_receiver = key(14);
    let config = ReserveConfig {
        optimal_utilization_rate: data.optimal_utilization_rate,
        loan_to_value_ratio: data.loan_to_value_ratio,
        liquidation_bonus: data.liquidation_bonus,
        liquidation_threshold: data.liquidation_threshold,
        min_borrow_rate: data.min_borrow_rate,
        optimal_borrow_rate: data.optimal_borrow_rate,
        max_borrow_rate: data.max_borrow_rate,
        fees: data.fees,
        deposit_limit: data.deposit_limit,
        borrow_limit: data.borrow_limit,
        fee_receiver,
    };
    let r = update_reserve_config(ctx(a), config);
    let mut expected = vec![16u8];
    expected.extend_from_slice(&expected_config_bytes(&data, &fee_receiver));
    assert_eq!(r.instruction.data, expected);
    assert_eq!(r.instruction.data.len(), 73);
}

#[test]
fn well_known_ids_are_distinct() {
    let ids = [
        token_program_id(),
        clock_sysvar_id(),
        rent_sysvar_id(),
        solend_cpi::Solend::id(),
        solend_cpi::TokenProgram::id(),
    ];
    assert_eq!(ids[0], ids[4]);
    for i in 0..4 {
        for j in 0..4 {
            if i != j {
                assert_ne!(ids[i], ids[j]);
            }
        }
    }
}
