use std::str::FromStr;

use solana_program::program_error::ProgramError;
use solana_program::pubkey::Pubkey;
use token_burn::error::BurnError;
use token_burn::identity::Identity;
use token_burn::instruction::{AccountMeta, BurnRequest, Instruction, BURN_TAG};
use token_burn::processor::{Binding, MINT_ADDRESS};
use token_burn::record::TokenAccount;

const TOKEN_PROGRAM: [u8; 32] = [
    6, 221, 246, 225, 215, 101, 161, 147, 217, 203, 225, 70, 206, 235, 121, 172, 28, 180, 133,
    237, 95, 91, 55, 145, 58, 140, 245, 133, 126, 255, 0, 169,
];

const MINT: [u8; 32] = [
    6, 207, 68, 47, 209, 234, 80, 210, 177, 134, 41, 7, 146, 50, 57, 108, 7, 93, 41, 193, 237,
    169, 18, 211, 143, 215, 80, 73, 248, 39, 227, 163,
];

const DERIVED_FOR_SEVENS: [u8; 32] = [
    77, 120, 77, 73, 17, 184, 190, 49, 152, 241, 60, 154, 193, 56, 251, 178, 137, 209, 118, 7,
    212, 107, 131, 39, 216, 11, 43, 222, 255, 226, 220, 107,
];

fn request(program: [u8; 32], amount: u64) -> BurnRequest {
    BurnRequest {
        program: Identity::new_from_array(program),
        account: Identity::new_from_array([0xA1; 32]),
        mint: Identity::new_from_array([0xB2; 32]),
        authority: Identity::new_from_array([0xC3; 32]),
        amount,
    }
}

#[test]
fn mint_address_is_the_configured_asset() {
    assert_eq!(MINT_ADDRESS, "Taki7fi3Zicv7Du1xNAWLaf6mRK7ikdn77HeGzgwvo4");
}

#[test]
fn binding_parses_the_asset_identifier() {
    let owner = Identity::new_from_array([7; 32]);
    let binding = Binding::for_owner(MINT_ADDRESS, &owner).unwrap();
    assert_eq!(binding.mint.to_bytes(), MINT);
    assert_eq!(binding.mint.to_bytes(), Pubkey::from_str(MINT_ADDRESS).unwrap().to_bytes());
}

#[test]
fn binding_parses_other_identifiers() {
    let owner = Identity::new_from_array([7; 32]);
    let binding = Binding::for_owner("11111111111111111111111111111111", &owner).unwrap();
    assert_eq!(binding.mint.to_bytes(), [0; 32]);
    let binding = Binding::for_owner("TokenkegQfeZyiNwAJbNbGKPFXCWuBvf9Ss623VQ5DA", &owner).unwrap();
    assert_eq!(binding.mint.to_bytes(), TOKEN_PROGRAM);
}

#[test]
fn binding_rejects_malformed_identifiers() {
    let owner = Identity::new_from_array([7; 32]);
    let malformed = [
        "",
        "Taki7fi3Zicv7Du1xNAWLaf6mRK7ikdn77HeGzgwvo",
        "Taki7fi3Zicv7Du1xNAWLaf6mRK7ikdn77HeGzgwvo4Taki7fi3Zicv7Du1xNAWLaf6mRK7ikdn77HeGzgwvo4",
        "Taki7fi3Zicv7Du1xNAWLaf6mRK7ikdn77HeGzgwv0l",
        "not a base58 identifier",
        "1111111111111111111111111111111",
    ];
    for text in malformed {
        assert_eq!(
            Binding::for_owner(text, &owner),
            Err(BurnError::ConfigurationError),
            "text {:?}",
            text
        );
    }
}

#[test]
#[allow(deprecated)]
fn binding_derives_the_associated_token_address() {
    let owner = Identity::new_from_array([7; 32]);
    let binding = Binding::for_owner(MINT_ADDRESS, &owner).unwrap();
    let expected = spl_associated_token_account::get_associated_token_address(
        &Pubkey::new_from_array([7; 32]),
        &Pubkey::new_from_array(MINT),
    );
    assert_eq!(binding.token_address.to_bytes(), expected.to_bytes());
    assert_eq!(binding.token_address.to_bytes(), DERIVED_FOR_SEVENS);
    assert!(!binding.token_address.same_as(&owner));
    assert!(!binding.token_address.same_as(&binding.mint));
}

#[test]
#[allow(deprecated)]
fn binding_depends_on_the_owner_and_on_the_asset() {
    let mut seen: Vec<[u8; 32]> = Vec::new();
    for owner in [[1u8; 32], [2u8; 32], [3u8; 32]] {
        for text in [MINT_ADDRESS, "So11111111111111111111111111111111111111112"] {
            let binding = Binding::for_owner(text, &Identity::new_from_array(owner)).unwrap();
            let expected = spl_associated_token_account::get_associated_token_address(
                &Pubkey::new_from_array(owner),
                &Pubkey::from_str(text).unwrap(),
            );
            assert_eq!(binding.token_address.to_bytes(), expected.to_bytes());
            assert!(!seen.contains(&binding.token_address.to_bytes()));
            seen.push(binding.token_address.to_bytes());
        }
    }
}

#[test]
fn binding_is_the_same_on_every_call() {
    let owner = Identity::new_from_array([7; 32]);
    assert_eq!(Binding::for_owner(MINT_ADDRESS, &owner), Binding::for_owner(MINT_ADDRESS, &owner));
}

#[test]
fn full_balance_names_the_token_program() {
    let record = TokenAccount {
        mint: Identity::new_from_array([0xB2; 32]),
        owner: Identity::new_from_array([0xC3; 32]),
        amount: 5000,
    };
    let built = BurnRequest::full_balance(
        &Identity::new_from_array([0xA1; 32]),
        &Identity::new_from_array([0xB2; 32]),
        &Identity::new_from_array([0xC3; 32]),
        &record,
    );
    assert_eq!(built, request(TOKEN_PROGRAM, 5000));
    assert_eq!(built.program.to_bytes(), spl_token::id().to_bytes());
}

#[test]
fn full_balance_takes_the_amount_from_the_record_alone() {
    let record = TokenAccount {
        mint: Identity::new_from_array([0x01; 32]),
        owner: Identity::new_from_array([0x02; 32]),
        amount: u64::MAX,
    };
    let built = BurnRequest::full_balance(
        &Identity::new_from_array([0xA1; 32]),
        &Identity::new_from_array([0xB2; 32]),
        &Identity::new_from_array([0xC3; 32]),
        &record,
    );
    assert_eq!(built, request(TOKEN_PROGRAM, u64::MAX));
}

#[test]
fn instruction_carries_the_request() {
    let built = request(TOKEN_PROGRAM, 5000).instruction().unwrap();
    let expected = Instruction {
        program_id: Identity::new_from_array(TOKEN_PROGRAM),
        accounts: vec![
            AccountMeta {
                pubkey: Identity::new_from_array([0xA1; 32]),
                is_signer: false,
                is_writable: true,
            },
            AccountMeta {
                pubkey: Identity::new_from_array([0xB2; 32]),
                is_signer: false,
                is_writable: true,
            },
            AccountMeta {
                pubkey: Identity::new_from_array([0xC3; 32]),
                is_signer: true,
                is_writable: false,
            },
        ],
        data: vec![8, 0x88, 0x13, 0, 0, 0, 0, 0, 0],
    };
    assert_eq!(built, expected);
}

#[test]
fn instruction_data_is_the_tag_and_the_amount() {
    assert_eq!(BURN_TAG, 8);
    let built = request(TOKEN_PROGRAM, 0).instruction().unwrap();
    assert_eq!(built.data, vec![8, 0, 0, 0, 0, 0, 0, 0, 0]);
    let built = request(TOKEN_PROGRAM, u64::MAX).instruction().unwrap();
    assert_eq!(built.data, vec![8, 255, 255, 255, 255, 255, 255, 255, 255]);
    let built = request(TOKEN_PROGRAM, 0x0102_0304_0506_0708).instruction().unwrap();
    assert_eq!(built.data, vec![8, 8, 7, 6, 5, 4, 3, 2, 1]);
}

#[test]
#[allow(deprecated)]
fn instruction_is_the_one_the_ledger_builds() {
    let built = request(TOKEN_PROGRAM, 123_456_789).instruction().unwrap();
    let ledger = spl_token::instruction::burn(
        &spl_token::id(),
        &Pubkey::new_from_array([0xA1; 32]),
        &Pubkey::new_from_array([0xB2; 32]),
        &Pubkey::new_from_array([0xC3; 32]),
        &[],
        123_456_789,
    )
    .unwrap();
    assert_eq!(built.program_id.to_bytes(), ledger.program_id.to_bytes());
    assert_eq!(built.data, ledger.data);
    assert_eq!(built.accounts.len(), ledger.accounts.len());
    for (ours, theirs) in built.accounts.iter().zip(ledger.accounts.iter()) {
        assert_eq!(ours.pubkey.to_bytes(), theirs.pubkey.to_bytes());
        assert_eq!(ours.is_signer, theirs.is_signer);
        assert_eq!(ours.is_writable, theirs.is_writable);
    }
}

#[test]
fn instruction_is_refused_for_another_program() {
    let mut other = TOKEN_PROGRAM;
    other[31] ^= 1;
    for program in [other, [0; 32], [0xA1; 32]] {
        assert_eq!(
            request(program, 5000).instruction(),
            Err(BurnError::InstructionBuildError(ProgramError::IncorrectProgramId))
        );
    }
}
