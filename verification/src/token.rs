//! Views of fungible-asset accounts, and the fixed identities the engine
//! checks against.
//!
//! A vault or destination account belongs to the external asset subprogram;
//! the engine only reads three of its fields: the asset type (mint), the
//! authority, and the balance. The raw 165-byte account encoding is decoded
//! by the asset subprogram's own codec behind a trusted wrapper.

use vstd::prelude::*;

use crate::addr::{addr_eq, Address};
use crate::error::LockrionError;

verus! {

/// The three fields of an asset account that the engine reads.
#[derive(Clone, Copy, Debug, PartialEq, Eq)]
pub struct TokenAccountView {
    /// The asset type this account holds.
    pub mint: Address,
    /// The authority allowed to move funds out of this account.
    pub authority: Address,
    /// The current balance, in base units.
    pub amount: u64,
}

/// A 4-byte optional-field tag as the asset subprogram encodes it: 0 or 1
/// in the first byte, zero in the next three.
pub open spec fn spec_coption_tag_ok(b: Seq<u8>, i: int) -> bool {
    (b[i] == 0 || b[i] == 1) && b[i + 1] == 0 && b[i + 2] == 0 && b[i + 3] == 0
}

/// Whether a byte buffer is a well-formed, initialized asset account: 165
/// bytes, valid optional-field tags, and an initialized or frozen state
/// byte.
pub open spec fn spec_token_account_ok(b: Seq<u8>) -> bool {
    b.len() == 165 && spec_coption_tag_ok(b, 72) && (b[108] == 1 || b[108] == 2)
        && spec_coption_tag_ok(b, 109) && spec_coption_tag_ok(b, 129)
}

/// Relies on spl_token's `Account::unpack` (the asset subprogram's account
/// codec): fails exactly when the buffer is not a well-formed initialized
/// 165-byte account; otherwise the mint is at offset 0, the authority at
/// 32, and the little-endian balance at 64.
#[allow(deprecated)]
#[verifier::external_body]
fn unpack_token_account(data: &[u8]) -> (r: Option<TokenAccountView>)
    ensures
        r is Some <==> spec_token_account_ok(data@),
        r is Some ==> r->0.mint@ == data@.subrange(0, 32) && r->0.authority@ == data@.subrange(
            32,
            64,
        ) && r->0.amount == vstd::bytes::spec_u64_from_le_bytes(data@.subrange(64, 72)),
{
    match <spl_token::state::Account as solana_program::program_pack::Pack>::unpack(data) {
        Ok(a) => Some(TokenAccountView {
            mint: a.mint.to_bytes(),
            authority: a.owner.to_bytes(),
            amount: a.amount,
        }),
        Err(_) => None,
    }
}

/// Read the mint, authority and balance of an asset account buffer; `None`
/// when the buffer is not a well-formed initialized account.
pub fn token_account_view(data: &[u8]) -> (r: Option<TokenAccountView>)
    ensures
        r is Some <==> spec_token_account_ok(data@),
        r is Some ==> r->0.mint@ == data@.subrange(0, 32) && r->0.authority@ == data@.subrange(
            32,
            64,
        ) && r->0.amount == vstd::bytes::spec_u64_from_le_bytes(data@.subrange(64, 72)),
{
    unpack_token_account(data)
}

/// The fixed identity of the external asset subprogram.
pub open spec fn spec_spl_token_id() -> Seq<u8> {
    seq![
        6u8, 221u8, 246u8, 225u8, 215u8, 101u8, 161u8, 147u8, 217u8, 203u8, 225u8, 70u8, 206u8,
        235u8, 121u8, 172u8, 28u8, 180u8, 133u8, 237u8, 95u8, 91u8, 55u8, 145u8, 58u8, 140u8,
        245u8, 133u8, 126u8, 255u8, 0u8, 169u8,
    ]
}

/// The fixed identity of the asset subprogram, as an address.
pub fn spl_token_program_id() -> (r: Address)
    ensures
        r@ == spec_spl_token_id(),
{
    let r: Address = [
        6u8, 221u8, 246u8, 225u8, 215u8, 101u8, 161u8, 147u8, 217u8, 203u8, 225u8, 70u8, 206u8,
        235u8, 121u8, 172u8, 28u8, 180u8, 133u8, 237u8, 95u8, 91u8, 55u8, 145u8, 58u8, 140u8,
        245u8, 133u8, 126u8, 255u8, 0u8, 169u8,
    ];
    proof {
        assert(r@ =~= spec_spl_token_id());
    }
    r
}

/// The fixed identity of the host's account-allocation program: the zero
/// address.
pub open spec fn spec_system_program_id() -> Seq<u8> {
    Seq::new(32, |i: int| 0u8)
}

/// The identity of the host's account-allocation program, as an address.
pub fn system_program_id() -> (r: Address)
    ensures
        r@ == spec_system_program_id(),
{
    let r: Address = [0u8; 32];
    proof {
        assert(r@ =~= spec_system_program_id());
    }
    r
}

/// The compiled-in platform authority: the only identity allowed to
/// initialize an issuance.
pub open spec fn spec_platform_authority() -> Seq<u8> {
    seq![
        150u8, 224u8, 147u8, 197u8, 3u8, 255u8, 83u8, 232u8, 221u8, 136u8, 163u8, 105u8, 142u8,
        96u8, 90u8, 144u8, 234u8, 3u8, 110u8, 90u8, 78u8, 65u8, 183u8, 220u8, 111u8, 129u8, 101u8,
        0u8, 121u8, 235u8, 55u8, 36u8,
    ]
}

/// The compiled-in platform authority, as an address.
pub fn platform_authority() -> (r: Address)
    ensures
        r@ == spec_platform_authority(),
{
    let r: Address = [
        150u8, 224u8, 147u8, 197u8, 3u8, 255u8, 83u8, 232u8, 221u8, 136u8, 163u8, 105u8, 142u8,
        96u8, 90u8, 144u8, 234u8, 3u8, 110u8, 90u8, 78u8, 65u8, 183u8, 220u8, 111u8, 129u8, 101u8,
        0u8, 121u8, 235u8, 55u8, 36u8,
    ];
    proof {
        assert(r@ =~= spec_platform_authority());
    }
    r
}

/// Whether the supplied asset-subprogram account is the real asset
/// subprogram.
pub fn validate_token_program(token_program_key: &Address) -> (r: Result<(), LockrionError>)
    ensures
        token_program_key@ == spec_spl_token_id() ==> r == Ok::<(), LockrionError>(()),
        token_program_key@ != spec_spl_token_id() ==> r == Err::<(), LockrionError>(
            LockrionError::InvalidTokenProgram,
        ),
{
    let id = spl_token_program_id();
    if addr_eq(token_program_key, &id) {
        Ok(())
    } else {
        Err(LockrionError::InvalidTokenProgram)
    }
}

/// What `validate_token_account_mint` returns: the buffer must be a
/// well-formed asset account whose asset type equals `expected_mint`.
pub open spec fn spec_validate_mint(data: Seq<u8>, expected_mint: Seq<u8>) -> Result<
    (),
    LockrionError,
> {
    if !spec_token_account_ok(data) {
        Err(LockrionError::InvalidEscrowAccount)
    } else if data.subrange(0, 32) != expected_mint {
        Err(LockrionError::InvalidMint)
    } else {
        Ok(())
    }
}

/// Check that an asset account buffer holds the expected asset type.
pub fn validate_token_account_mint(data: &[u8], expected_mint: &Address) -> (r: Result<
    (),
    LockrionError,
>)
    ensures
        r == spec_validate_mint(data@, expected_mint@),
{
    match token_account_view(data) {
        None => Err(LockrionError::InvalidEscrowAccount),
        Some(v) => {
            if addr_eq(&v.mint, expected_mint) {
                Ok(())
            } else {
                Err(LockrionError::InvalidMint)
            }
        },
    }
}

/// What `validate_token_account_authority` returns: the buffer must be a
/// well-formed asset account whose authority equals `expected_authority`.
pub open spec fn spec_validate_authority(data: Seq<u8>, expected_authority: Seq<u8>) -> Result<
    (),
    LockrionError,
> {
    if !spec_token_account_ok(data) {
        Err(LockrionError::InvalidEscrowAccount)
    } else if data.subrange(32, 64) != expected_authority {
        Err(LockrionError::InvalidAuthority)
    } else {
        Ok(())
    }
}

/// Check that an asset account buffer names the expected authority.
pub fn validate_token_account_authority(data: &[u8], expected_authority: &Address) -> (r: Result<
    (),
    LockrionError,
>)
    ensures
        r == spec_validate_authority(data@, expected_authority@),
{
    match token_account_view(data) {
        None => Err(LockrionError::InvalidEscrowAccount),
        Some(v) => {
            if addr_eq(&v.authority, expected_authority) {
                Ok(())
            } else {
                Err(LockrionError::InvalidAuthority)
            }
        },
    }
}

} // verus!
