//! The burn request and the instruction that carries it to the token ledger.

use vstd::prelude::*;
use crate::error::BurnError;
use crate::identity::Identity;
use crate::ledger::{ledger_burn, token_program, token_program_bytes};
use crate::record::{le_bytes, TokenAccount};

verus! {

/// First byte of a burn instruction's data.
pub const BURN_TAG: u8 = 8;

/// What a burn request holds, as mathematical values.
pub struct RequestFields {
    pub program: Seq<u8>,
    pub account: Seq<u8>,
    pub mint: Seq<u8>,
    pub authority: Seq<u8>,
    pub amount: u64,
}

/// A request to the token ledger to burn `amount` from `account`.
///
/// The authority signs alone: the request names no co-signers.
#[derive(Debug, PartialEq, Eq)]
pub struct BurnRequest {
    /// The ledger program that is to execute the burn.
    pub program: Identity,
    /// The token account to burn from.
    pub account: Identity,
    /// The asset that the account holds.
    pub mint: Identity,
    /// The identity that authorizes the burn.
    pub authority: Identity,
    /// The amount to burn.
    pub amount: u64,
}

impl View for BurnRequest {
    type V = RequestFields;

    open spec fn view(&self) -> RequestFields {
        RequestFields {
            program: self.program@,
            account: self.account@,
            mint: self.mint@,
            authority: self.authority@,
            amount: self.amount,
        }
    }
}

/// What an account entry of an instruction holds, as mathematical values.
pub struct MetaFields {
    pub pubkey: Seq<u8>,
    pub is_signer: bool,
    pub is_writable: bool,
}

/// An account that an instruction names, with what the instruction may do
/// with it.
#[derive(Debug, PartialEq, Eq)]
pub struct AccountMeta {
    /// The account's address.
    pub pubkey: Identity,
    /// Whether the instruction needs the account's signature.
    pub is_signer: bool,
    /// Whether the instruction may change the account.
    pub is_writable: bool,
}

impl View for AccountMeta {
    type V = MetaFields;

    open spec fn view(&self) -> MetaFields {
        MetaFields {
            pubkey: self.pubkey@,
            is_signer: self.is_signer,
            is_writable: self.is_writable,
        }
    }
}

/// What an instruction holds, as mathematical values.
pub struct InstructionFields {
    pub program_id: Seq<u8>,
    pub accounts: Seq<MetaFields>,
    pub data: Seq<u8>,
}

/// An instruction for another program: the program, the accounts it is to
/// work on, and the data it is to read.
#[derive(Debug, PartialEq, Eq)]
pub struct Instruction {
    /// The program that is to execute the instruction.
    pub program_id: Identity,
    /// The accounts handed to the program, in its order.
    pub accounts: Vec<AccountMeta>,
    /// The bytes handed to the program.
    pub data: Vec<u8>,
}

impl View for Instruction {
    type V = InstructionFields;

    open spec fn view(&self) -> InstructionFields {
        InstructionFields {
            program_id: self.program_id@,
            accounts: self.accounts@.map_values(|meta: AccountMeta| meta@),
            data: self.data@,
        }
    }
}

/// The instruction that carries `request`: the token account and the mint
/// writable, the authority as the only signer, and as data the burn tag
/// followed by the amount, least significant byte first.
pub open spec fn burn_instruction(request: RequestFields) -> InstructionFields {
    InstructionFields {
        program_id: request.program,
        accounts: seq![
            MetaFields { pubkey: request.account, is_signer: false, is_writable: true },
            MetaFields { pubkey: request.mint, is_signer: false, is_writable: true },
            MetaFields { pubkey: request.authority, is_signer: true, is_writable: false },
        ],
        data: seq![BURN_TAG] + le_bytes(request.amount),
    }
}

impl BurnRequest {
    /// The request to burn the whole balance of `record` from `token_address`
    /// on the owner's authority.
    pub fn full_balance(
        token_address: &Identity,
        mint: &Identity,
        owner: &Identity,
        record: &TokenAccount,
    ) -> (request: BurnRequest)
        ensures
            request@ == (RequestFields {
                program: token_program_bytes(),
                account: token_address@,
                mint: mint@,
                authority: owner@,
                amount: record.amount,
            }),
    {
        BurnRequest {
            program: token_program(),
            account: *token_address,
            mint: *mint,
            authority: *owner,
            amount: record.amount,
        }
    }

    /// Has the ledger build the instruction for the request. The ledger builds
    /// it exactly when the request names the token program, and else reports
    /// an error, which is passed on as an `InstructionBuildError`.
    pub fn instruction(&self) -> (result: Result<Instruction, BurnError>)
        ensures
            match result {
                Ok(instruction) => self.program@ == token_program_bytes() && instruction@
                    == burn_instruction(self@),
                Err(error) => self.program@ != token_program_bytes()
                    && error is InstructionBuildError,
            },
    {
        match ledger_burn(self) {
            Ok(instruction) => Ok(instruction),
            Err(error) => Err(BurnError::InstructionBuildError(error)),
        }
    }
}

} // verus!
