//! SPL token instruction construction, delegated to the token crate.
//!
//! The token program's wire layout is fixed, so the instruction bytes and
//! account lists are stated exactly, and the trusted wrappers promise no more
//! than what the instruction builders are written to produce.

use vstd::prelude::*;
use crate::codec::base58_of;
use crate::models::AccountMeta;

verus! {

/// The SPL token program id, in base58.
pub open spec fn spl_token_id_str() -> Seq<char> {
    "TokenkegQfeZyiNwAJbNbGKPFXCWuBvf9Ss623VQ5DA"@
}

/// The rent sysvar account id, in base58.
pub open spec fn rent_sysvar_id_str() -> Seq<char> {
    "SysvarRent111111111111111111111111111111111"@
}

/// A `u64` in little-endian byte order.
pub open spec fn u64_le_bytes(v: u64) -> Seq<u8> {
    seq![
        (v & 0xff) as u8,
        ((v >> 8) & 0xff) as u8,
        ((v >> 16) & 0xff) as u8,
        ((v >> 24) & 0xff) as u8,
        ((v >> 32) & 0xff) as u8,
        ((v >> 40) & 0xff) as u8,
        ((v >> 48) & 0xff) as u8,
        ((v >> 56) & 0xff) as u8,
    ]
}

/// The packed initialize-mint instruction: tag 0, the decimals, the mint
/// authority, and the freeze authority as a set optional (here always the
/// mint authority again).
pub open spec fn initialize_mint_data(authority: Seq<u8>, decimals: u8) -> Seq<u8> {
    seq![0u8, decimals] + authority + seq![1u8] + authority
}

/// The packed mint-to instruction: tag 7 and the amount in little endian.
pub open spec fn mint_to_data(amount: u64) -> Seq<u8> {
    seq![7u8] + u64_le_bytes(amount)
}

/// A token instruction as the token crate built it, with the account ids
/// already rendered in base58.
pub(crate) struct RawInstruction {
    pub program_id: String,
    pub accounts: Vec<AccountMeta>,
    pub data: Vec<u8>,
}

/// Relies on `spl_token::instruction::initialize_mint` (spl-token 4.0) called
/// with `spl_token::id()`: it always succeeds, the instruction data is the
/// packed initialize-mint layout, and the accounts are the writable mint
/// followed by the read-only rent sysvar. Account ids are rendered by
/// `Pubkey`'s display, which is their base58 encoding.
#[verifier::external_body]
pub(crate) fn spl_initialize_mint(mint: &[u8], authority: &[u8], decimals: u8) -> (r: Result<
    RawInstruction,
    String,
>)
    requires
        mint@.len() == 32,
        authority@.len() == 32,
    ensures
        r is Ok,
        match r {
            Ok(ins) => {
                &&& ins.program_id@ == spl_token_id_str()
                &&& ins.accounts@.len() == 2
                &&& ins.accounts@[0].pubkey@ == base58_of(mint@)
                &&& ins.accounts@[0].is_signer == false
                &&& ins.accounts@[0].is_writable == true
                &&& ins.accounts@[1].pubkey@ == rent_sysvar_id_str()
                &&& ins.accounts@[1].is_signer == false
                &&& ins.accounts@[1].is_writable == false
                &&& ins.data@ == initialize_mint_data(authority@, decimals)
            },
            Err(_) => true,
        },
{
    let mint_pk = solana_sdk::pubkey::Pubkey::try_from(mint).unwrap();
    let auth_pk = solana_sdk::pubkey::Pubkey::try_from(authority).unwrap();
    let built = spl_token::instruction::initialize_mint(
        &spl_token::id(), &mint_pk, &auth_pk, Some(&auth_pk), decimals);
    match built {
        Ok(ins) => Ok(RawInstruction {
            program_id: ins.program_id.to_string(),
            accounts: ins.accounts.into_iter().map(|a| AccountMeta {
                pubkey: a.pubkey.to_string(), is_signer: a.is_signer, is_writable: a.is_writable,
            }).collect(),
            data: ins.data,
        }),
        Err(e) => Err(e.to_string()),
    }
}

/// Relies on `spl_token::instruction::mint_to` (spl-token 4.0) called with
/// `spl_token::id()` and no multisig signers: it always succeeds, the
/// instruction data is the packed mint-to layout, and the accounts are the
/// writable mint, the writable destination, and the authority as the sole
/// read-only signer. Account ids are rendered by `Pubkey`'s display, which is
/// their base58 encoding.
#[verifier::external_body]
pub(crate) fn spl_mint_to(mint: &[u8], destination: &[u8], authority: &[u8], amount: u64) -> (r:
    Result<RawInstruction, String>)
    requires
        mint@.len() == 32,
        destination@.len() == 32,
        authority@.len() == 32,
    ensures
        r is Ok,
        match r {
            Ok(ins) => {
                &&& ins.program_id@ == spl_token_id_str()
                &&& ins.accounts@.len() == 3
                &&& ins.accounts@[0].pubkey@ == base58_of(mint@)
                &&& ins.accounts@[0].is_signer == false
                &&& ins.accounts@[0].is_writable == true
                &&& ins.accounts@[1].pubkey@ == base58_of(destination@)
                &&& ins.accounts@[1].is_signer == false
                &&& ins.accounts@[1].is_writable == true
                &&& ins.accounts@[2].pubkey@ == base58_of(authority@)
                &&& ins.accounts@[2].is_signer == true
                &&& ins.accounts@[2].is_writable == false
                &&& ins.data@ == mint_to_data(amount)
            },
            Err(_) => true,
        },
{
    let mint_pk = solana_sdk::pubkey::Pubkey::try_from(mint).unwrap();
    let dest_pk = solana_sdk::pubkey::Pubkey::try_from(destination).unwrap();
    let auth_pk = solana_sdk::pubkey::Pubkey::try_from(authority).unwrap();
    let built = spl_token::instruction::mint_to(
        &spl_token::id(), &mint_pk, &dest_pk, &auth_pk, &[], amount);
    match built {
        Ok(ins) => Ok(RawInstruction {
            program_id: ins.program_id.to_string(),
            accounts: ins.accounts.into_iter().map(|a| AccountMeta {
                pubkey: a.pubkey.to_string(), is_signer: a.is_signer, is_writable: a.is_writable,
            }).collect(),
            data: ins.data,
        }),
        Err(e) => Err(e.to_string()),
    }
}

} // verus!
