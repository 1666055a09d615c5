//! The balance record at the head of a token account's data.
//!
//! | offset | length | field  | encoding                        |
//! |--------|--------|--------|---------------------------------|
//! | 0      | 32     | mint   | raw bytes                       |
//! | 32     | 32     | owner  | raw bytes                       |
//! | 64     | 8      | amount | unsigned integer, little-endian |
//!
//! The layout carries neither a version tag nor a checksum. Bytes after the
//! first 72 are ignored.

use vstd::prelude::*;
use crate::error::BurnError;
use crate::identity::{Identity, IDENTITY_BYTES};

verus! {

/// Offset of the owner field.
pub const OWNER_OFFSET: usize = 32;

/// Offset of the amount field.
pub const AMOUNT_OFFSET: usize = 64;

/// Number of bytes in the amount field.
pub const AMOUNT_BYTES: usize = 8;

/// Number of bytes that a record occupies.
pub const RECORD_BYTES: usize = 72;

/// The number that eight bytes spell, least significant byte first.
pub open spec fn le_value(bytes: Seq<u8>) -> nat
    recommends
        bytes.len() == 8,
{
    (bytes[0] as nat) + (bytes[1] as nat) * 0x100 + (bytes[2] as nat) * 0x1_0000 + (bytes[3] as nat)
        * 0x100_0000 + (bytes[4] as nat) * 0x1_0000_0000 + (bytes[5] as nat) * 0x100_0000_0000 + (
    bytes[6] as nat) * 0x1_0000_0000_0000 + (bytes[7] as nat) * 0x100_0000_0000_0000
}

/// The eight bytes that spell `value`, least significant byte first.
pub open spec fn le_bytes(value: u64) -> Seq<u8> {
    seq![
        (value % 0x100) as u8,
        (value / 0x100 % 0x100) as u8,
        (value / 0x1_0000 % 0x100) as u8,
        (value / 0x100_0000 % 0x100) as u8,
        (value / 0x1_0000_0000 % 0x100) as u8,
        (value / 0x100_0000_0000 % 0x100) as u8,
        (value / 0x1_0000_0000_0000 % 0x100) as u8,
        (value / 0x100_0000_0000_0000 % 0x100) as u8,
    ]
}

/// Dividing by a power of 256 is dividing by 256 that many times.
proof fn lemma_nested_quotients(value: u64)
    by (bit_vector)
    ensures
        value / 0x1_0000 == value / 0x100 / 0x100,
        value / 0x100_0000 == value / 0x1_0000 / 0x100,
        value / 0x1_0000_0000 == value / 0x100_0000 / 0x100,
        value / 0x100_0000_0000 == value / 0x1_0000_0000 / 0x100,
        value / 0x1_0000_0000_0000 == value / 0x100_0000_0000 / 0x100,
        value / 0x100_0000_0000_0000 == value / 0x1_0000_0000_0000 / 0x100,
        value / 0x100_0000_0000_0000 / 0x100 == 0,
{
}

/// A byte below a multiple of 256 is the remainder, and the multiple's factor
/// the quotient.
proof fn lemma_byte_below(low: u8, high: nat)
    ensures
        (low + high * 0x100) % 0x100 == low,
        (low + high * 0x100) / 0x100 == high,
{
}

/// Eight bytes spell a number that fits in 64 bits.
pub proof fn lemma_le_value_bound(bytes: Seq<u8>)
    requires
        bytes.len() == 8,
    ensures
        le_value(bytes) <= u64::MAX,
{
}

/// Spelling a number and reading it back gives the number.
pub proof fn lemma_le_value_of_le_bytes(value: u64)
    ensures
        le_bytes(value).len() == 8,
        le_value(le_bytes(value)) == value,
{
    lemma_nested_quotients(value);
}

/// Reading eight bytes and spelling the number gives the bytes.
pub proof fn lemma_le_bytes_of_le_value(bytes: Seq<u8>)
    requires
        bytes.len() == 8,
    ensures
        le_bytes(le_value(bytes) as u64) == bytes,
{
    let value: u64 = le_value(bytes) as u64;
    lemma_nested_quotients(value);
    let h7: nat = 0;
    let h6: nat = bytes[7] as nat + h7 * 0x100;
    let h5: nat = bytes[6] as nat + h6 * 0x100;
    let h4: nat = bytes[5] as nat + h5 * 0x100;
    let h3: nat = bytes[4] as nat + h4 * 0x100;
    let h2: nat = bytes[3] as nat + h3 * 0x100;
    let h1: nat = bytes[2] as nat + h2 * 0x100;
    let h0: nat = bytes[1] as nat + h1 * 0x100;
    lemma_byte_below(bytes[0], h0);
    lemma_byte_below(bytes[1], h1);
    lemma_byte_below(bytes[2], h2);
    lemma_byte_below(bytes[3], h3);
    lemma_byte_below(bytes[4], h4);
    lemma_byte_below(bytes[5], h5);
    lemma_byte_below(bytes[6], h6);
    lemma_byte_below(bytes[7], h7);
}

/// What a balance record holds, as mathematical values.
pub struct RecordFields {
    pub mint: Seq<u8>,
    pub owner: Seq<u8>,
    pub amount: u64,
}

/// The record that `input` starts with, if `input` is long enough to hold one.
pub open spec fn decoded(input: Seq<u8>) -> Option<RecordFields> {
    if input.len() < RECORD_BYTES {
        None
    } else {
        Some(
            RecordFields {
                mint: input.subrange(0, OWNER_OFFSET as int),
                owner: input.subrange(OWNER_OFFSET as int, AMOUNT_OFFSET as int),
                amount: le_value(input.subrange(AMOUNT_OFFSET as int, RECORD_BYTES as int)) as u64,
            },
        )
    }
}

/// The 72 bytes that hold `fields`.
pub open spec fn encoded(fields: RecordFields) -> Seq<u8> {
    fields.mint + fields.owner + le_bytes(fields.amount)
}

/// A record whose identities have 32 bytes each.
pub open spec fn well_formed(fields: RecordFields) -> bool {
    fields.mint.len() == IDENTITY_BYTES && fields.owner.len() == IDENTITY_BYTES
}

/// Decoded view of the record at the head of a token account's data.
#[derive(Debug, PartialEq, Eq)]
pub struct TokenAccount {
    /// The asset that the account holds.
    pub mint: Identity,
    /// The identity that controls the account.
    pub owner: Identity,
    /// The current balance.
    pub amount: u64,
}

impl View for TokenAccount {
    type V = RecordFields;

    open spec fn view(&self) -> RecordFields {
        RecordFields { mint: self.mint@, owner: self.owner@, amount: self.amount }
    }
}

/// Reads the little-endian number stored in `input` at `offset`.
fn read_u64_le(input: &[u8], offset: usize) -> (value: u64)
    requires
        offset + AMOUNT_BYTES <= input@.len(),
    ensures
        value == le_value(input@.subrange(offset as int, offset + AMOUNT_BYTES)),
{
    let b0: u64 = input[offset] as u64;
    let b1: u64 = input[offset + 1] as u64;
    let b2: u64 = input[offset + 2] as u64;
    let b3: u64 = input[offset + 3] as u64;
    let b4: u64 = input[offset + 4] as u64;
    let b5: u64 = input[offset + 5] as u64;
    let b6: u64 = input[offset + 6] as u64;
    let b7: u64 = input[offset + 7] as u64;
    b0 + b1 * 0x100 + b2 * 0x1_0000 + b3 * 0x100_0000 + b4 * 0x1_0000_0000 + b5 * 0x100_0000_0000
        + b6 * 0x1_0000_0000_0000 + b7 * 0x100_0000_0000_0000
}

/// Appends the eight bytes that spell `value` to `out`.
fn write_u64_le(out: &mut Vec<u8>, value: u64)
    ensures
        final(out)@ == old(out)@ + le_bytes(value),
{
    out.push((value % 0x100) as u8);
    out.push((value / 0x100 % 0x100) as u8);
    out.push((value / 0x1_0000 % 0x100) as u8);
    out.push((value / 0x100_0000 % 0x100) as u8);
    out.push((value / 0x1_0000_0000 % 0x100) as u8);
    out.push((value / 0x100_0000_0000 % 0x100) as u8);
    out.push((value / 0x1_0000_0000_0000 % 0x100) as u8);
    out.push((value / 0x100_0000_0000_0000 % 0x100) as u8);
}

impl TokenAccount {
    /// Decodes the record at the head of `input`.
    ///
    /// Fails with `InvalidAccountData` exactly when `input` has fewer than 72
    /// bytes. The record's identities are not compared with any account.
    pub fn deserialize(input: &[u8]) -> (result: Result<TokenAccount, BurnError>)
        ensures
            match result {
                Ok(record) => decoded(input@) == Some(record@),
                Err(error) => decoded(input@) is None && error == BurnError::InvalidAccountData,
            },
    {
        if input.len() < RECORD_BYTES {
            return Err(BurnError::InvalidAccountData);
        }
        let mint = Identity::read_from(input, 0);
        let owner = Identity::read_from(input, OWNER_OFFSET);
        let amount = read_u64_le(input, AMOUNT_OFFSET);
        Ok(TokenAccount { mint, owner, amount })
    }

    /// Encodes the record into its 72 bytes.
    pub fn serialize(&self) -> (out: Vec<u8>)
        ensures
            out@ == encoded(self@),
            out@.len() == RECORD_BYTES,
    {
        let mut out: Vec<u8> = Vec::new();
        self.mint.write_to(&mut out);
        self.owner.write_to(&mut out);
        write_u64_le(&mut out, self.amount);
        out
    }
}

/// Decoding reads the three fields from their offsets, whatever follows them,
/// and the amount is the number that its eight bytes spell.
pub proof fn lemma_decode_reads_fields(input: Seq<u8>)
    requires
        input.len() >= RECORD_BYTES,
    ensures
        decoded(input) matches Some(fields) && well_formed(fields) && fields.amount == le_value(
            input.subrange(AMOUNT_OFFSET as int, RECORD_BYTES as int),
        ),
        decoded(input) == decoded(input.subrange(0, RECORD_BYTES as int)),
{
    lemma_le_value_bound(input.subrange(AMOUNT_OFFSET as int, RECORD_BYTES as int));
    let head = input.subrange(0, RECORD_BYTES as int);
    assert(head.subrange(0, OWNER_OFFSET as int) =~= input.subrange(0, OWNER_OFFSET as int));
    assert(head.subrange(OWNER_OFFSET as int, AMOUNT_OFFSET as int) =~= input.subrange(
        OWNER_OFFSET as int,
        AMOUNT_OFFSET as int,
    ));
    assert(head.subrange(AMOUNT_OFFSET as int, RECORD_BYTES as int) =~= input.subrange(
        AMOUNT_OFFSET as int,
        RECORD_BYTES as int,
    ));
}

/// Decoding 72 bytes and encoding the record gives the bytes back: no two
/// buffers of 72 bytes hold the same record.
pub proof fn lemma_encode_of_decoded(input: Seq<u8>)
    requires
        input.len() == RECORD_BYTES,
    ensures
        decoded(input) matches Some(fields) && encoded(fields) == input,
{
    let amount_bytes = input.subrange(AMOUNT_OFFSET as int, RECORD_BYTES as int);
    lemma_le_value_bound(amount_bytes);
    lemma_le_bytes_of_le_value(amount_bytes);
}

/// Encoding a record and decoding the bytes gives the record back, for every
/// pair of identities, every amount and whatever bytes follow the record.
pub proof fn lemma_round_trip(fields: RecordFields, tail: Seq<u8>)
    requires
        well_formed(fields),
    ensures
        encoded(fields).len() == RECORD_BYTES,
        decoded(encoded(fields) + tail) == Some(fields),
{
    let input = encoded(fields) + tail;
    lemma_le_value_of_le_bytes(fields.amount);
    assert(input.subrange(0, OWNER_OFFSET as int) =~= fields.mint);
    assert(input.subrange(OWNER_OFFSET as int, AMOUNT_OFFSET as int) =~= fields.owner);
    assert(input.subrange(AMOUNT_OFFSET as int, RECORD_BYTES as int) =~= le_bytes(fields.amount));
}

/// A buffer that is too short holds no record.
pub proof fn lemma_short_input_has_no_record(input: Seq<u8>)
    requires
        input.len() < RECORD_BYTES,
    ensures
        decoded(input) is None,
{
}

/// An amount field of eight zero bytes is the balance zero.
pub proof fn lemma_zero_amount(input: Seq<u8>)
    requires
        input.len() >= RECORD_BYTES,
        forall|i: int| AMOUNT_OFFSET <= i < RECORD_BYTES ==> input[i] == 0,
    ensures
        decoded(input) matches Some(fields) && fields.amount == 0,
{
}

} // verus!
