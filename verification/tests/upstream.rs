//! Conformance against the published upstream token-lending builders:
//! for the operations whose schema the deployed program kept unchanged
//! from upstream, the bound requests match the upstream crate's
//! instruction builders byte for byte - data, account order and flags.

use solend_cpi::account::lending_program_id;
use solend_cpi::{
    deposit_obligation_collateral, init_obligation, refresh_obligation,
    repay_obligation_liquidity, set_lending_market_owner, CpiContext, CpiRequest,
    DepositObligationCollateralAccounts, InitObligationAccounts, RefreshObligationAccounts,
    RepayObligationLiquidityAccounts, SetLendingMarketOwnerAccounts,
};
use spl_token_lending::solana_program::instruction::Instruction as UpstreamInstruction;
use spl_token_lending::solana_program::pubkey::Pubkey as UpstreamPubkey;

fn key(b: u8) -> solend_cpi::Pubkey {
    solend_cpi::Pubkey::new([b; 32])
}

fn up(k: &solend_cpi::Pubkey) -> UpstreamPubkey {
    UpstreamPubkey::new_from_array(k.bytes)
}

fn ctx<A>(accounts: A) -> CpiContext<A> {
    CpiContext { accounts, signer_seeds: Vec::new() }
}

fn assert_matches_upstream(r: &CpiRequest, upstream: &UpstreamInstruction) {
    assert_eq!(r.instruction.program_id.bytes, upstream.program_id.to_bytes());
    assert_eq!(r.instruction.data, upstream.data);
    assert_eq!(r.instruction.accounts.len(), upstream.accounts.len());
    for (mine, theirs) in r.instruction.accounts.iter().zip(upstream.accounts.iter()) {
        assert_eq!(mine.pubkey.bytes, theirs.pubkey.to_bytes());
        assert_eq!(mine.is_signer, theirs.is_signer);
        assert_eq!(mine.is_writable, theirs.is_writable);
    }
}

#[test]
fn set_lending_market_owner_matches_upstream() {
    let r = set_lending_market_owner(ctx(SetLendingMarketOwnerAccounts {
        new_owner: key(1),
        lending_market_pubkey: key(2),
        lending_market_owner: key(3),
    }));
    let upstream = spl_token_lending::instruction::set_lending_market_owner(
        up(&lending_program_id()),
        up(&key(2)),
        up(&key(3)),
        up(&key(1)),
    );
    assert_matches_upstream(&r, &upstream);
}

#[test]
fn init_obligation_matches_upstream() {
    let r = init_obligation(ctx(InitObligationAccounts {
        obligation_pubkey: key(1),
        lending_market_pubkey: key(2),
        obligation_owner_pubkey: key(3),
    }));
    let upstream = spl_token_lending::instruction::init_obligation(
        up(&lending_program_id()),
        up(&key(1)),
        up(&key(2)),
        up(&key(3)),
    );
    assert_matches_upstream(&r, &upstream);
}

#[test]
fn refresh_obligation_matches_upstream() {
    let reserves = vec![key(7), key(8), key(7)];
    let r = refresh_obligation(ctx(RefreshObligationAccounts {
        obligation_pubkey: key(1),
        reserve_pubkeys: reserves.clone(),
    }));
    let upstream = spl_token_lending::instruction::refresh_obligation(
        up(&lending_program_id()),
        up(&key(1)),
        reserves.iter().map(up).collect(),
    );
    assert_matches_upstream(&r, &upstream);
}

#[test]
fn deposit_obligation_collateral_matches_upstream() {
    let r = deposit_obligation_collateral(
        ctx(DepositObligationCollateralAccounts {
            source_collateral_pubkey: key(1),
            destination_collateral_pubkey: key(2),
            deposit_reserve_pubkey: key(3),
            obligation_pubkey: key(4),
            lending_market_pubkey: key(5),
            obligation_owner_pubkey: key(6),
            user_transfer_authority_pubkey: key(7),
        }),
        314,
    );
    let upstream = spl_token_lending::instruction::deposit_obligation_collateral(
        up(&lending_program_id()),
        314,
        up(&key(1)),
        up(&key(2)),
        up(&key(3)),
        up(&key(4)),
        up(&key(5)),
        up(&key(6)),
        up(&key(7)),
    );
    assert_matches_upstream(&r, &upstream);
}

#[test]
fn repay_obligation_liquidity_matches_upstream() {
    let r = repay_obligation_liquidity(
        ctx(RepayObligationLiquidityAccounts {
            source_liquidity_pubkey: key(1),
            destination_liquidity_pubkey: key(2),
            repay_reserve_pubkey: key(3),
            obligation_pubkey: key(4),
            lending_market_pubkey: key(5),
            user_transfer_authority_pubkey: key(6),
        }),
        271,
    );
    let upstream = spl_token_lending::instruction::repay_obligation_liquidity(
        up(&lending_program_id()),
        271,
        up(&key(1)),
        up(&key(2)),
        up(&key(3)),
        up(&key(4)),
        up(&key(5)),
        up(&key(6)),
    );
    assert_matches_upstream(&r, &upstream);
}
