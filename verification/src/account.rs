//! Account addresses, account metas, and the well-known program ids that
//! the binder inserts into account lists on its own.

use vstd::prelude::*;

verus! {

/// A 32-byte account address, exactly as the wire format carries it.
#[derive(Clone, Copy, PartialEq, Eq, Debug)]
pub struct Pubkey {
    pub bytes: [u8; 32],
}

impl View for Pubkey {
    type V = Seq<u8>;

    open spec fn view(&self) -> Seq<u8> {
        self.bytes@
    }
}

impl Pubkey {
    pub fn new(bytes: [u8; 32]) -> (k: Pubkey)
        ensures
            k.bytes == bytes,
    {
        Pubkey { bytes }
    }
}

/// One entry of an instruction's account list: an address plus the
/// capability flags the external program reads positionally.
#[derive(Clone, Copy, PartialEq, Eq, Debug)]
pub struct AccountMeta {
    pub pubkey: Pubkey,
    pub is_signer: bool,
    pub is_writable: bool,
}

/// A writable, non-signer account meta.
pub open spec fn writable(k: Pubkey) -> AccountMeta {
    AccountMeta { pubkey: k, is_signer: false, is_writable: true }
}

/// A read-only, non-signer account meta.
pub open spec fn readonly(k: Pubkey) -> AccountMeta {
    AccountMeta { pubkey: k, is_signer: false, is_writable: false }
}

/// A read-only account meta that must sign the invocation.
pub open spec fn signer(k: Pubkey) -> AccountMeta {
    AccountMeta { pubkey: k, is_signer: true, is_writable: false }
}

/// Builds a writable, non-signer account meta.
pub fn meta_writable(k: Pubkey) -> (m: AccountMeta)
    ensures
        m == writable(k),
{
    AccountMeta { pubkey: k, is_signer: false, is_writable: true }
}

/// Builds a read-only, non-signer account meta.
pub fn meta_readonly(k: Pubkey) -> (m: AccountMeta)
    ensures
        m == readonly(k),
{
    AccountMeta { pubkey: k, is_signer: false, is_writable: false }
}

/// Builds a read-only signer account meta.
pub fn meta_signer(k: Pubkey) -> (m: AccountMeta)
    ensures
        m == signer(k),
{
    AccountMeta { pubkey: k, is_signer: true, is_writable: false }
}

/// The token program id, `TokenkegQfeZyiNwAJbNbGKPFXCWuBvf9Ss623VQ5DA`.
pub open spec fn spec_token_program_id() -> Pubkey {
    Pubkey {
        bytes: [
            6u8, 221u8, 246u8, 225u8, 215u8, 101u8, 161u8, 147u8, 217u8, 203u8, 225u8, 70u8,
            206u8, 235u8, 121u8, 172u8, 28u8, 180u8, 133u8, 237u8, 95u8, 91u8, 55u8, 145u8, 58u8,
            140u8, 245u8, 133u8, 126u8, 255u8, 0u8, 169u8,
        ],
    }
}

pub fn token_program_id() -> (k: Pubkey)
    ensures
        k == spec_token_program_id(),
{
    Pubkey {
        bytes: [
            6u8, 221u8, 246u8, 225u8, 215u8, 101u8, 161u8, 147u8, 217u8, 203u8, 225u8, 70u8,
            206u8, 235u8, 121u8, 172u8, 28u8, 180u8, 133u8, 237u8, 95u8, 91u8, 55u8, 145u8, 58u8,
            140u8, 245u8, 133u8, 126u8, 255u8, 0u8, 169u8,
        ],
    }
}

/// The rent sysvar id, `SysvarRent111111111111111111111111111111111`.
pub open spec fn spec_rent_sysvar_id() -> Pubkey {
    Pubkey {
        bytes: [
            6u8, 167u8, 213u8, 23u8, 25u8, 44u8, 92u8, 81u8, 33u8, 140u8, 201u8, 76u8, 61u8,
            74u8, 241u8, 127u8, 88u8, 218u8, 238u8, 8u8, 155u8, 161u8, 253u8, 68u8, 227u8, 219u8,
            217u8, 138u8, 0u8, 0u8, 0u8, 0u8,
        ],
    }
}

pub fn rent_sysvar_id() -> (k: Pubkey)
    ensures
        k == spec_rent_sysvar_id(),
{
    Pubkey {
        bytes: [
            6u8, 167u8, 213u8, 23u8, 25u8, 44u8, 92u8, 81u8, 33u8, 140u8, 201u8, 76u8, 61u8,
            74u8, 241u8, 127u8, 88u8, 218u8, 238u8, 8u8, 155u8, 161u8, 253u8, 68u8, 227u8, 219u8,
            217u8, 138u8, 0u8, 0u8, 0u8, 0u8,
        ],
    }
}

/// The clock sysvar id, `SysvarC1ock11111111111111111111111111111111`.
pub open spec fn spec_clock_sysvar_id() -> Pubkey {
    Pubkey {
        bytes: [
            6u8, 167u8, 213u8, 23u8, 24u8, 199u8, 116u8, 201u8, 40u8, 86u8, 99u8, 152u8, 105u8,
            29u8, 94u8, 182u8, 139u8, 94u8, 184u8, 163u8, 155u8, 75u8, 109u8, 92u8, 115u8, 85u8,
            91u8, 33u8, 0u8, 0u8, 0u8, 0u8,
        ],
    }
}

pub fn clock_sysvar_id() -> (k: Pubkey)
    ensures
        k == spec_clock_sysvar_id(),
{
    Pubkey {
        bytes: [
            6u8, 167u8, 213u8, 23u8, 24u8, 199u8, 116u8, 201u8, 40u8, 86u8, 99u8, 152u8, 105u8,
            29u8, 94u8, 182u8, 139u8, 94u8, 184u8, 163u8, 155u8, 75u8, 109u8, 92u8, 115u8, 85u8,
            91u8, 33u8, 0u8, 0u8, 0u8, 0u8,
        ],
    }
}

/// The deployed lending program id this facade targets,
/// `So1endDq2YkqhipRh3WViPa8hdiSpxWy6z3Z6tMCpAo`.
pub open spec fn spec_lending_program_id() -> Pubkey {
    Pubkey {
        bytes: [
            6u8, 155u8, 139u8, 152u8, 90u8, 171u8, 83u8, 42u8, 69u8, 9u8, 13u8, 232u8, 85u8,
            127u8, 205u8, 220u8, 190u8, 108u8, 183u8, 239u8, 199u8, 58u8, 10u8, 101u8, 176u8,
            111u8, 146u8, 3u8, 93u8, 183u8, 62u8, 236u8,
        ],
    }
}

pub fn lending_program_id() -> (k: Pubkey)
    ensures
        k == spec_lending_program_id(),
{
    Pubkey {
        bytes: [
            6u8, 155u8, 139u8, 152u8, 90u8, 171u8, 83u8, 42u8, 69u8, 9u8, 13u8, 232u8, 85u8,
            127u8, 205u8, 220u8, 190u8, 108u8, 183u8, 239u8, 199u8, 58u8, 10u8, 101u8, 176u8,
            111u8, 146u8, 3u8, 93u8, 183u8, 62u8, 236u8,
        ],
    }
}

/// Marker for the token program as a program account in typed bundles.
#[derive(Clone)]
pub struct TokenProgram;

impl TokenProgram {
    pub fn id() -> (k: Pubkey)
        ensures
            k == spec_token_program_id(),
    {
        token_program_id()
    }
}

/// Marker for the deployed lending program all requests target.
#[derive(Clone)]
pub struct Solend;

impl Solend {
    pub fn id() -> (k: Pubkey)
        ensures
            k == spec_lending_program_id(),
    {
        lending_program_id()
    }
}

} // verus!
