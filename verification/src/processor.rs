//! One invocation, from the accounts supplied to the instruction to dispatch.
//!
//! The stages run in a fixed order and the first failure ends the invocation:
//! the owner's authorization, the binding of the token account and the asset
//! to the owner, the balance record, the burn request. [`planned`] states the
//! order. The caller dispatches the instruction of a [`Dispatch`] and hands
//! what came of it to [`conclude`].

use vstd::prelude::*;
use crate::error::{BurnError, Failure};
use crate::identity::Identity;
use crate::instruction::{burn_instruction, BurnRequest, Instruction, RequestFields};
use crate::ledger::{
    associated_address, associated_address_exists, associated_token_address,
    has_associated_address, parse_identity, parsed_identity, token_program_bytes,
};
use crate::record::{decoded, RecordFields, TokenAccount, AMOUNT_OFFSET, RECORD_BYTES};
use solana_program::program_error::ProgramError;

verus! {

/// The asset whose balances are burned, in base58.
pub const MINT_ADDRESS: &'static str = "Taki7fi3Zicv7Du1xNAWLaf6mRK7ikdn77HeGzgwvo4";

/// Position of the owner among the accounts of an invocation.
pub const OWNER_INDEX: usize = 0;

/// Position of the token account among the accounts of an invocation.
pub const TOKEN_ACCOUNT_INDEX: usize = 1;

/// Position of the asset account among the accounts of an invocation.
pub const MINT_ACCOUNT_INDEX: usize = 2;

/// What an account holds, as mathematical values.
pub struct AccountFields {
    pub key: Seq<u8>,
    pub is_signer: bool,
    pub data: Seq<u8>,
}

/// An account as the host loaded it for the invocation.
#[derive(Debug, PartialEq, Eq)]
pub struct AccountInput {
    /// The account's address.
    pub key: Identity,
    /// Whether the host found the account's signature on the transaction.
    pub is_signer: bool,
    /// The account's data.
    pub data: Vec<u8>,
}

impl View for AccountInput {
    type V = AccountFields;

    open spec fn view(&self) -> AccountFields {
        AccountFields { key: self.key@, is_signer: self.is_signer, data: self.data@ }
    }
}

/// The accounts of an invocation, as mathematical values.
pub open spec fn fields_of(accounts: Seq<AccountInput>) -> Seq<AccountFields> {
    accounts.map_values(|account: AccountInput| account@)
}

/// What a binding holds, as mathematical values.
pub struct BindingFields {
    pub mint: Seq<u8>,
    pub token_address: Seq<u8>,
}

/// The asset and the token account that an owner's invocation must name.
#[derive(Debug, PartialEq, Eq)]
pub struct Binding {
    /// The configured asset.
    pub mint: Identity,
    /// The owner's associated token account for the asset.
    pub token_address: Identity,
}

impl View for Binding {
    type V = BindingFields;

    open spec fn view(&self) -> BindingFields {
        BindingFields { mint: self.mint@, token_address: self.token_address@ }
    }
}

/// A burn that is ready for dispatch.
#[derive(Debug, PartialEq, Eq)]
pub struct Dispatch {
    /// What is burned, from which account and on whose authority.
    pub request: BurnRequest,
    /// The instruction to invoke the token ledger with.
    pub instruction: Instruction,
}

/// The binding that `mint_address` and `owner` call for.
pub open spec fn expected_binding(mint_address: Seq<char>, owner: Seq<u8>) -> Result<
    BindingFields,
    Failure,
> {
    match parsed_identity(mint_address) {
        None => Err(Failure::ConfigurationError),
        Some(mint) => if has_associated_address(owner, mint) {
            Ok(BindingFields { mint, token_address: associated_address(owner, mint) })
        } else {
            Err(Failure::NoDerivedAddress)
        },
    }
}

/// What the accounts of an authorized owner come to under `binding`: the
/// token account is compared first, then the asset account, and only then is
/// the record decoded.
pub open spec fn bound_plan(
    binding: BindingFields,
    owner: Seq<u8>,
    accounts: Seq<AccountFields>,
) -> Result<RequestFields, Failure> {
    if accounts.len() <= TOKEN_ACCOUNT_INDEX {
        Err(Failure::NotEnoughAccountKeys)
    } else if accounts[TOKEN_ACCOUNT_INDEX as int].key != binding.token_address {
        Err(
            Failure::AddressMismatch {
                expected: binding.token_address,
                received: accounts[TOKEN_ACCOUNT_INDEX as int].key,
            },
        )
    } else if accounts.len() <= MINT_ACCOUNT_INDEX {
        Err(Failure::NotEnoughAccountKeys)
    } else if accounts[MINT_ACCOUNT_INDEX as int].key != binding.mint {
        Err(Failure::AssetMismatch)
    } else {
        match decoded(accounts[TOKEN_ACCOUNT_INDEX as int].data) {
            None => Err(Failure::InvalidAccountData),
            Some(record) => Ok(
                RequestFields {
                    program: token_program_bytes(),
                    account: binding.token_address,
                    mint: binding.mint,
                    authority: owner,
                    amount: record.amount,
                },
            ),
        }
    }
}

/// What an invocation with `accounts` comes to: the burn request, or the
/// failure of the first stage that fails.
pub open spec fn planned(mint_address: Seq<char>, accounts: Seq<AccountFields>) -> Result<
    RequestFields,
    Failure,
> {
    if accounts.len() <= OWNER_INDEX {
        Err(Failure::NotEnoughAccountKeys)
    } else if !accounts[OWNER_INDEX as int].is_signer {
        Err(Failure::MissingSignature)
    } else {
        let owner = accounts[OWNER_INDEX as int].key;
        match expected_binding(mint_address, owner) {
            Err(failure) => Err(failure),
            Ok(binding) => bound_plan(binding, owner, accounts),
        }
    }
}

/// The account at `index`, or `NotEnoughAccountKeys` where fewer were
/// supplied.
pub fn account_at(accounts: &[AccountInput], index: usize) -> (result: Result<
    &AccountInput,
    BurnError,
>)
    ensures
        match result {
            Ok(account) => index < accounts@.len() && *account == accounts@[index as int],
            Err(error) => index >= accounts@.len() && error@ == Failure::NotEnoughAccountKeys,
        },
{
    if index < accounts.len() {
        Ok(&accounts[index])
    } else {
        Err(BurnError::NotEnoughAccountKeys)
    }
}

/// Passes exactly when the host has flagged `owner` as a signer.
pub fn check_authorization(owner: &AccountInput) -> (result: Result<(), BurnError>)
    ensures
        match result {
            Ok(_) => owner.is_signer,
            Err(error) => !owner.is_signer && error@ == Failure::MissingSignature,
        },
{
    if owner.is_signer {
        Ok(())
    } else {
        Err(BurnError::MissingSignature)
    }
}

impl Binding {
    /// Parses the asset identifier and derives the owner's token account for
    /// it. Fails with `ConfigurationError` where the identifier does not
    /// parse, and with `NoDerivedAddress` where the derivation finds no
    /// address for the owner and the asset.
    pub fn for_owner(mint_address: &str, owner: &Identity) -> (result: Result<Binding, BurnError>)
        ensures
            match result {
                Ok(binding) => expected_binding(mint_address@, owner@) == Ok::<_, Failure>(
                    binding@,
                ),
                Err(error) => expected_binding(mint_address@, owner@) == Err::<BindingFields, _>(
                    error@,
                ),
            },
    {
        let mint = match parse_identity(mint_address) {
            Some(mint) => mint,
            None => { return Err(BurnError::ConfigurationError); },
        };
        if !associated_address_exists(owner, &mint) {
            return Err(BurnError::NoDerivedAddress);
        }
        let token_address = associated_token_address(owner, &mint);
        Ok(Binding { mint, token_address })
    }

    /// Passes exactly when `claimed` is the derived token account.
    pub fn check_token_account(&self, claimed: &Identity) -> (result: Result<(), BurnError>)
        ensures
            match result {
                Ok(_) => claimed@ == self.token_address@,
                Err(error) => claimed@ != self.token_address@ && error@
                    == (Failure::AddressMismatch {
                    expected: self.token_address@,
                    received: claimed@,
                }),
            },
    {
        if claimed.same_as(&self.token_address) {
            Ok(())
        } else {
            Err(BurnError::AddressMismatch { expected: self.token_address, received: *claimed })
        }
    }

    /// Passes exactly when `claimed` is the configured asset.
    pub fn check_mint_account(&self, claimed: &Identity) -> (result: Result<(), BurnError>)
        ensures
            match result {
                Ok(_) => claimed@ == self.mint@,
                Err(error) => claimed@ != self.mint@ && error@ == Failure::AssetMismatch,
            },
    {
        if claimed.same_as(&self.mint) {
            Ok(())
        } else {
            Err(BurnError::AssetMismatch)
        }
    }

    /// Holds the accounts of an authorized owner against the binding, decodes
    /// the token account's record and prepares the burn of its whole balance.
    pub fn plan(&self, owner: &Identity, accounts: &[AccountInput]) -> (result: Result<
        Dispatch,
        BurnError,
    >)
        ensures
            match result {
                Ok(dispatch) => bound_plan(self@, owner@, fields_of(accounts@)) == Ok::<
                    _,
                    Failure,
                >(dispatch.request@) && dispatch.instruction@ == burn_instruction(
                    dispatch.request@,
                ),
                Err(error) => bound_plan(self@, owner@, fields_of(accounts@)) == Err::<
                    RequestFields,
                    _,
                >(error@),
            },
    {
        let token_account = account_at(accounts, TOKEN_ACCOUNT_INDEX)?;
        self.check_token_account(&token_account.key)?;
        let mint_account = account_at(accounts, MINT_ACCOUNT_INDEX)?;
        self.check_mint_account(&mint_account.key)?;
        let record = TokenAccount::deserialize(token_account.data.as_slice())?;
        let request = BurnRequest::full_balance(&self.token_address, &self.mint, owner, &record);
        let instruction = request.instruction()?;
        Ok(Dispatch { request, instruction })
    }
}

/// Runs the stages on `accounts` for the asset that `mint_address` spells,
/// up to the instruction that burns the token account's whole balance.
pub fn plan_burn(mint_address: &str, accounts: &[AccountInput]) -> (result: Result<
    Dispatch,
    BurnError,
>)
    ensures
        match result {
            Ok(dispatch) => planned(mint_address@, fields_of(accounts@)) == Ok::<_, Failure>(
                dispatch.request@,
            ) && dispatch.instruction@ == burn_instruction(dispatch.request@),
            Err(error) => planned(mint_address@, fields_of(accounts@)) == Err::<RequestFields, _>(
                error@,
            ),
        },
{
    let owner = account_at(accounts, OWNER_INDEX)?;
    check_authorization(owner)?;
    let binding = Binding::for_owner(mint_address, &owner.key)?;
    binding.plan(&owner.key, accounts)
}

/// Handles one invocation for the asset [`MINT_ADDRESS`]. Neither the
/// program's own identity nor the instruction data is read.
pub fn process_instruction(
    _program_id: &Identity,
    accounts: &[AccountInput],
    _instruction_data: &[u8],
) -> (result: Result<Dispatch, BurnError>)
    ensures
        match result {
            Ok(dispatch) => planned(MINT_ADDRESS@, fields_of(accounts@)) == Ok::<_, Failure>(
                dispatch.request@,
            ) && dispatch.instruction@ == burn_instruction(dispatch.request@),
            Err(error) => planned(MINT_ADDRESS@, fields_of(accounts@)) == Err::<RequestFields, _>(
                error@,
            ),
        },
{
    plan_burn(MINT_ADDRESS, accounts)
}

/// Ends the invocation with what the dispatch came to: success, or the
/// ledger's error as an `InvocationFailure`.
pub fn conclude(outcome: Result<(), ProgramError>) -> (result: Result<(), BurnError>)
    ensures
        match outcome {
            Ok(_) => result is Ok,
            Err(error) => result == Err::<(), _>(BurnError::InvocationFailure(error)),
        },
{
    match outcome {
        Ok(_) => Ok(()),
        Err(error) => Err(BurnError::InvocationFailure(error)),
    }
}

/// An invocation whose owner signed, whose token account is the one derived
/// for the owner and the asset, whose asset account is the asset, and whose
/// token account holds `record`, comes to the request that burns exactly
/// `record.amount` from that token account on the owner's authority.
pub proof fn lemma_valid_invocation_burns_balance(
    mint_address: Seq<char>,
    accounts: Seq<AccountFields>,
    mint: Seq<u8>,
    record: RecordFields,
)
    requires
        accounts.len() > MINT_ACCOUNT_INDEX,
        accounts[OWNER_INDEX as int].is_signer,
        parsed_identity(mint_address) == Some(mint),
        has_associated_address(accounts[OWNER_INDEX as int].key, mint),
        accounts[TOKEN_ACCOUNT_INDEX as int].key == associated_address(
            accounts[OWNER_INDEX as int].key,
            mint,
        ),
        accounts[MINT_ACCOUNT_INDEX as int].key == mint,
        decoded(accounts[TOKEN_ACCOUNT_INDEX as int].data) == Some(record),
    ensures
        planned(mint_address, accounts) == Ok::<_, Failure>(
            RequestFields {
                program: token_program_bytes(),
                account: accounts[TOKEN_ACCOUNT_INDEX as int].key,
                mint: accounts[MINT_ACCOUNT_INDEX as int].key,
                authority: accounts[OWNER_INDEX as int].key,
                amount: record.amount,
            },
        ),
{
}

/// An invocation whose owner did not sign fails with `MissingSignature`,
/// whatever the asset identifier spells and whatever the other accounts hold:
/// no other stage is consulted.
pub proof fn lemma_unsigned_owner_fails_first(
    mint_address: Seq<char>,
    accounts: Seq<AccountFields>,
)
    requires
        accounts.len() > OWNER_INDEX,
        !accounts[OWNER_INDEX as int].is_signer,
    ensures
        planned(mint_address, accounts) == Err::<RequestFields, _>(Failure::MissingSignature),
{
}

/// Where the owner signed and the binding exists, a token account other than
/// the derived one fails with `AddressMismatch`, whatever its data holds: the
/// record is not decoded.
pub proof fn lemma_foreign_token_account_fails(
    mint_address: Seq<char>,
    accounts: Seq<AccountFields>,
    mint: Seq<u8>,
    token_address: Seq<u8>,
)
    requires
        accounts.len() > TOKEN_ACCOUNT_INDEX,
        accounts[OWNER_INDEX as int].is_signer,
        expected_binding(mint_address, accounts[OWNER_INDEX as int].key) == Ok::<_, Failure>(
            BindingFields { mint, token_address },
        ),
        accounts[TOKEN_ACCOUNT_INDEX as int].key != token_address,
    ensures
        planned(mint_address, accounts) == Err::<RequestFields, _>(
            Failure::AddressMismatch {
                expected: token_address,
                received: accounts[TOKEN_ACCOUNT_INDEX as int].key,
            },
        ),
{
}

/// The same holds of a token account whose address differs from the derived
/// one in a single byte.
pub proof fn lemma_token_account_off_by_one_byte_fails(
    mint_address: Seq<char>,
    accounts: Seq<AccountFields>,
    mint: Seq<u8>,
    token_address: Seq<u8>,
    index: int,
)
    requires
        accounts.len() > TOKEN_ACCOUNT_INDEX,
        accounts[OWNER_INDEX as int].is_signer,
        expected_binding(mint_address, accounts[OWNER_INDEX as int].key) == Ok::<_, Failure>(
            BindingFields { mint, token_address },
        ),
        0 <= index < token_address.len(),
        accounts[TOKEN_ACCOUNT_INDEX as int].key.len() == token_address.len(),
        accounts[TOKEN_ACCOUNT_INDEX as int].key[index] != token_address[index],
    ensures
        planned(mint_address, accounts) == Err::<RequestFields, _>(
            Failure::AddressMismatch {
                expected: token_address,
                received: accounts[TOKEN_ACCOUNT_INDEX as int].key,
            },
        ),
{
    lemma_foreign_token_account_fails(mint_address, accounts, mint, token_address);
}

/// Where the accounts pass every check, data shorter than a record fails
/// with `InvalidAccountData`.
pub proof fn lemma_short_record_fails(
    mint_address: Seq<char>,
    accounts: Seq<AccountFields>,
    mint: Seq<u8>,
)
    requires
        accounts.len() > MINT_ACCOUNT_INDEX,
        accounts[OWNER_INDEX as int].is_signer,
        parsed_identity(mint_address) == Some(mint),
        has_associated_address(accounts[OWNER_INDEX as int].key, mint),
        accounts[TOKEN_ACCOUNT_INDEX as int].key == associated_address(
            accounts[OWNER_INDEX as int].key,
            mint,
        ),
        accounts[MINT_ACCOUNT_INDEX as int].key == mint,
        accounts[TOKEN_ACCOUNT_INDEX as int].data.len() < RECORD_BYTES,
    ensures
        planned(mint_address, accounts) == Err::<RequestFields, _>(Failure::InvalidAccountData),
{
}

/// Where the accounts pass every check, a record whose amount field is zero
/// comes to a request that burns zero: an empty balance is not refused.
pub proof fn lemma_zero_balance_is_burned(
    mint_address: Seq<char>,
    accounts: Seq<AccountFields>,
    mint: Seq<u8>,
)
    requires
        accounts.len() > MINT_ACCOUNT_INDEX,
        accounts[OWNER_INDEX as int].is_signer,
        parsed_identity(mint_address) == Some(mint),
        has_associated_address(accounts[OWNER_INDEX as int].key, mint),
        accounts[TOKEN_ACCOUNT_INDEX as int].key == associated_address(
            accounts[OWNER_INDEX as int].key,
            mint,
        ),
        accounts[MINT_ACCOUNT_INDEX as int].key == mint,
        accounts[TOKEN_ACCOUNT_INDEX as int].data.len() >= RECORD_BYTES,
        forall|i: int|
            AMOUNT_OFFSET <= i < RECORD_BYTES
                ==> accounts[TOKEN_ACCOUNT_INDEX as int].data[i] == 0,
    ensures
        planned(mint_address, accounts) matches Ok(request) && request.amount == 0,
{
    crate::record::lemma_zero_amount(accounts[TOKEN_ACCOUNT_INDEX as int].data);
}

} // verus!
