//! The well-known ids this crate states as byte constants, held against
//! the values the ecosystem crates publish.

use solend_cpi::account::{clock_sysvar_id, rent_sysvar_id, token_program_id};

#[test]
fn token_program_id_matches_spl_token() {
    assert_eq!(token_program_id().bytes, spl_token::id().to_bytes());
}

#[test]
fn sysvar_ids_match_solana() {
    assert_eq!(
        clock_sysvar_id().bytes,
        anchor_lang::solana_program::sysvar::clock::id().to_bytes()
    );
    assert_eq!(
        rent_sysvar_id().bytes,
        anchor_lang::solana_program::sysvar::rent::id().to_bytes()
    );
}
