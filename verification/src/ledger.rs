//! What the library takes from the token ledger's own crates.
//!
//! Nothing in this module is proved: each function states what the outside
//! function that it calls does.

use vstd::prelude::*;
use crate::identity::Identity;
use crate::instruction::{burn_instruction, AccountMeta, BurnRequest, Instruction};
use solana_program::program_error::ProgramError;
use solana_program::pubkey::Pubkey;
use std::str::FromStr;

verus! {

/// The identity that `Pubkey::from_str` reads from `text`, or `None` where it
/// reports an error: `text` is not the base58 spelling of 32 bytes.
pub uninterp spec fn parsed_identity(text: Seq<char>) -> Option<Seq<u8>>;

/// Whether `Pubkey::try_find_program_address` finds a program address for the
/// associated-token-account program under the seeds `owner`, the token
/// program's identity and `mint`.
pub uninterp spec fn has_associated_address(owner: Seq<u8>, mint: Seq<u8>) -> bool;

/// The address that `get_associated_token_address` derives for the token
/// account of `owner` that holds `mint`.
pub uninterp spec fn associated_address(owner: Seq<u8>, mint: Seq<u8>) -> Seq<u8>;

/// The identity of the token ledger program,
/// `TokenkegQfeZyiNwAJbNbGKPFXCWuBvf9Ss623VQ5DA`.
pub open spec fn token_program_bytes() -> Seq<u8> {
    seq![
        6u8, 221, 246, 225, 215, 101, 161, 147, 217, 203, 225, 70, 206, 235, 121, 172,
        28, 180, 133, 237, 95, 91, 55, 145, 58, 140, 245, 133, 126, 255, 0, 169,
    ]
}

/// Calls `Pubkey::from_str`, which decodes base58 text of at most 44 bytes
/// into exactly 32 bytes and reports an error for any other text. The
/// contract names the result and keeps nothing of the error.
#[verifier::external_body]
pub(crate) fn parse_identity(text: &str) -> (parsed: Option<Identity>)
    ensures
        match parsed {
            Some(identity) => parsed_identity(text@) == Some(identity@),
            None => parsed_identity(text@) is None,
        },
{
    match Pubkey::from_str(text) {
        Ok(key) => Some(Identity { bytes: key.to_bytes() }),
        Err(_) => None,
    }
}

/// Calls `spl_token::id`, which returns the program identity that the token
/// crate declares. The contract gives its 32 bytes.
#[verifier::external_body]
pub(crate) fn token_program() -> (program: Identity)
    ensures
        program@ == token_program_bytes(),
{
    Identity { bytes: spl_token::id().to_bytes() }
}

/// Calls `Pubkey::try_find_program_address` with the seeds and the program
/// that `get_associated_token_address` searches under. The search tries the
/// bump seeds from 255 down to 1 and finds nothing when every one of them
/// hashes onto the curve. The contract names whether it found an address.
#[verifier::external_body]
pub(crate) fn associated_address_exists(owner: &Identity, mint: &Identity) -> (found: bool)
    ensures
        found == has_associated_address(owner@, mint@),
{
    let token = spl_token::id();
    let seeds: [&[u8]; 3] = [&owner.bytes, token.as_ref(), &mint.bytes];
    Pubkey::try_find_program_address(&seeds, &spl_associated_token_account::id()).is_some()
}

/// Calls `get_associated_token_address`, which runs the same search and
/// panics where it finds nothing: `requires` leaves those inputs out. The
/// contract names the address.
#[verifier::external_body]
#[allow(deprecated)]
pub(crate) fn associated_token_address(owner: &Identity, mint: &Identity) -> (address: Identity)
    requires
        has_associated_address(owner@, mint@),
    ensures
        address@ == associated_address(owner@, mint@),
{
    let wallet = Pubkey::new_from_array(owner.bytes);
    let asset = Pubkey::new_from_array(mint.bytes);
    let address = spl_associated_token_account::get_associated_token_address(&wallet, &asset);
    Identity { bytes: address.to_bytes() }
}

/// Calls `spl_token::instruction::burn` with no co-signers. It refuses a
/// program other than the token program with an error, and else returns the
/// instruction that `burn_instruction` describes.
#[verifier::external_body]
#[allow(deprecated)]
pub(crate) fn ledger_burn(request: &BurnRequest) -> (built: Result<Instruction, ProgramError>)
    ensures
        match built {
            Ok(instruction) => request.program@ == token_program_bytes() && instruction@
                == burn_instruction(request@),
            Err(_) => request.program@ != token_program_bytes(),
        },
{
    let program = Pubkey::new_from_array(request.program.bytes);
    let account = Pubkey::new_from_array(request.account.bytes);
    let mint = Pubkey::new_from_array(request.mint.bytes);
    let authority = Pubkey::new_from_array(request.authority.bytes);
    let built = spl_token::instruction::burn(&program, &account, &mint, &authority, &[], request.amount)?;
    let meta = |m: &solana_program::instruction::AccountMeta| AccountMeta {
        pubkey: Identity { bytes: m.pubkey.to_bytes() },
        is_signer: m.is_signer,
        is_writable: m.is_writable,
    };
    let accounts = built.accounts.iter().map(meta).collect();
    Ok(Instruction { program_id: Identity { bytes: built.program_id.to_bytes() }, accounts, data: built.data })
}

} // verus!
