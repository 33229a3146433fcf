//! Requests to the system transfer service.
//!
//! A request travels as an [`Instruction`]: the identifier of the program that
//! serves it, the accounts it touches and a few bytes of data. The instruction
//! that asks for a transfer is built by the system interface of the ledger's
//! toolkit; this module states what that instruction holds and reads it back.

use vstd::prelude::*;
use crate::pubkey::Pubkey;

verus! {

/// One account named by an instruction, with the rights the instruction asks for.
#[derive(Clone, Copy, Debug, PartialEq, Eq)]
pub struct AccountMeta {
    pub pubkey: Pubkey,
    pub is_signer: bool,
    pub is_writable: bool,
}

/// A request to a program of the ledger.
#[derive(Debug, PartialEq, Eq)]
pub struct Instruction {
    pub program_id: Pubkey,
    pub accounts: Vec<AccountMeta>,
    pub data: Vec<u8>,
}

/// What a transfer request asks for.
#[derive(Clone, Copy, Debug, PartialEq, Eq)]
pub struct TransferRequest {
    pub source: Pubkey,
    pub destination: Pubkey,
    pub amount: u64,
}

/// The bytes of the system program's identifier: 32 zeros.
pub open spec fn system_program_bytes() -> Seq<u8> {
    Seq::new(32, |i: int| 0u8)
}

/// The eight bytes of `x`, least significant first.
pub open spec fn u64_le_bytes(x: u64) -> Seq<u8> {
    seq![
        (x % 0x100) as u8,
        (x / 0x100 % 0x100) as u8,
        (x / 0x1_0000 % 0x100) as u8,
        (x / 0x100_0000 % 0x100) as u8,
        (x / 0x1_0000_0000 % 0x100) as u8,
        (x / 0x100_0000_0000 % 0x100) as u8,
        (x / 0x1_0000_0000_0000 % 0x100) as u8,
        (x / 0x100_0000_0000_0000 % 0x100) as u8,
    ]
}

/// The number whose eight bytes, least significant first, are `b[at..at + 8]`.
pub open spec fn u64_from_le_bytes(b: Seq<u8>, at: int) -> int {
    b[at] as int
        + 0x100 * (b[at + 1] as int)
        + 0x1_0000 * (b[at + 2] as int)
        + 0x100_0000 * (b[at + 3] as int)
        + 0x1_0000_0000 * (b[at + 4] as int)
        + 0x100_0000_0000 * (b[at + 5] as int)
        + 0x1_0000_0000_0000 * (b[at + 6] as int)
        + 0x100_0000_0000_0000 * (b[at + 7] as int)
}

/// The data of a transfer instruction: the tag 2 as four bytes, then the
/// amount as eight bytes, both least significant byte first.
pub open spec fn transfer_data(lamports: u64) -> Seq<u8> {
    seq![2u8, 0u8, 0u8, 0u8] + u64_le_bytes(lamports)
}

/// The two accounts of a transfer instruction: the source, which must sign,
/// and the destination; both may be written.
pub open spec fn transfer_accounts(from: Pubkey, to: Pubkey) -> Seq<AccountMeta> {
    seq![
        AccountMeta { pubkey: from, is_signer: true, is_writable: true },
        AccountMeta { pubkey: to, is_signer: false, is_writable: true },
    ]
}

/// `ix` is the system program's transfer of `lamports` from `from` to `to`.
pub open spec fn is_system_transfer(ix: Instruction, from: Pubkey, to: Pubkey, lamports: u64) -> bool {
    &&& ix.program_id@ == system_program_bytes()
    &&& ix.accounts@ == transfer_accounts(from, to)
    &&& ix.data@ == transfer_data(lamports)
}

/// What `ix` asks for, if it is a well-formed transfer request to the system
/// program: two accounts and twelve bytes of data that start with the tag 2.
pub open spec fn request_of(ix: Instruction) -> Option<TransferRequest> {
    if ix.program_id@ == system_program_bytes()
        && ix.accounts@.len() == 2
        && ix.data@.len() == 12
        && ix.data@[0] == 2 && ix.data@[1] == 0 && ix.data@[2] == 0 && ix.data@[3] == 0 {
        Some(
            TransferRequest {
                source: ix.accounts@[0].pubkey,
                destination: ix.accounts@[1].pubkey,
                amount: u64_from_le_bytes(ix.data@, 4) as u64,
            },
        )
    } else {
        None
    }
}

/// Calls `anchor_lang::solana_program::system_instruction::transfer` and
/// copies the instruction it returns, field by field, into this crate's type.
///
/// Trusted: the instruction is addressed to the system program, whose
/// identifier is 32 zero bytes; it names `from` as a writable signer and `to`
/// as writable; its data is the serialized `Transfer` variant, which is the
/// variant index 2 in four bytes followed by `lamports` in eight bytes, least
/// significant byte first.
#[verifier::external_body]
fn system_transfer(from: &Pubkey, to: &Pubkey, lamports: u64) -> (ix: Instruction)
    ensures
        is_system_transfer(ix, *from, *to, lamports),
{
    let made = anchor_lang::solana_program::system_instruction::transfer(
        &anchor_lang::prelude::Pubkey::new_from_array(from.bytes),
        &anchor_lang::prelude::Pubkey::new_from_array(to.bytes),
        lamports,
    );
    let mut accounts = Vec::new();
    for m in made.accounts.iter() {
        let pubkey = Pubkey { bytes: m.pubkey.to_bytes() };
        accounts.push(AccountMeta { pubkey, is_signer: m.is_signer, is_writable: m.is_writable });
    }
    Instruction { program_id: Pubkey { bytes: made.program_id.to_bytes() }, accounts, data: made.data }
}

/// Calls `anchor_lang::solana_program::system_program::id`.
///
/// Trusted: the system program's identifier is 32 zero bytes.
#[verifier::external_body]
fn system_program_key() -> (key: Pubkey)
    ensures
        key@ == system_program_bytes(),
{
    Pubkey { bytes: anchor_lang::solana_program::system_program::id().to_bytes() }
}

/// The identifier of the system program, which serves transfers.
pub fn system_program_id() -> (key: Pubkey)
    ensures
        key@ == system_program_bytes(),
{
    system_program_key()
}

/// The instruction that asks the system program to move `lamports` from
/// `from` to `to`.
pub fn transfer_instruction(from: &Pubkey, to: &Pubkey, lamports: u64) -> (ix: Instruction)
    ensures
        is_system_transfer(ix, *from, *to, lamports),
        request_of(ix) == Some(TransferRequest { source: *from, destination: *to, amount: lamports }),
{
    let ix = system_transfer(from, to, lamports);
    proof {
        lemma_le_bytes_round_trip(lamports);
        assert(ix.data@.len() == 12);
        assert(u64_from_le_bytes(ix.data@, 4) == lamports);
    }
    ix
}

/// Dividing by 256 once more is dividing by a divisor 256 times as large.
proof fn lemma_next_byte(x: int, d: int)
    requires
        0 <= x,
        0 < d,
    ensures
        x / (d * 0x100) == (x / d) / 0x100,
        x / d == (x / d) % 0x100 + 0x100 * (x / (d * 0x100)),
{
    vstd::arithmetic::div_mod::lemma_div_denominator(x, d, 0x100);
}

/// Reading the bytes of a number back gives the number.
pub proof fn lemma_le_bytes_round_trip(x: u64)
    ensures
        u64_le_bytes(x).len() == 8,
        u64_from_le_bytes(u64_le_bytes(x), 0) == x,
        transfer_data(x).len() == 12,
        u64_from_le_bytes(transfer_data(x), 4) == x,
{
    let b = u64_le_bytes(x);
    let d = transfer_data(x);
    let n = x as int;
    let q1 = n / 0x100;
    let q2 = n / 0x1_0000;
    let q3 = n / 0x100_0000;
    let q4 = n / 0x1_0000_0000;
    let q5 = n / 0x100_0000_0000;
    let q6 = n / 0x1_0000_0000_0000;
    let q7 = n / 0x100_0000_0000_0000;
    lemma_next_byte(n, 1);
    lemma_next_byte(n, 0x100);
    lemma_next_byte(n, 0x1_0000);
    lemma_next_byte(n, 0x100_0000);
    lemma_next_byte(n, 0x1_0000_0000);
    lemma_next_byte(n, 0x100_0000_0000);
    lemma_next_byte(n, 0x1_0000_0000_0000);
    assert(q7 < 0x100);
    assert(n == n % 0x100 + 0x100 * q1);
    assert(q1 == q1 % 0x100 + 0x100 * q2);
    assert(q2 == q2 % 0x100 + 0x100 * q3);
    assert(q3 == q3 % 0x100 + 0x100 * q4);
    assert(q4 == q4 % 0x100 + 0x100 * q5);
    assert(q5 == q5 % 0x100 + 0x100 * q6);
    assert(q6 == q6 % 0x100 + 0x100 * q7);
    assert(q7 == q7 % 0x100);
    assert(b[0] == n % 0x100);
    assert(b[1] == q1 % 0x100);
    assert(b[2] == q2 % 0x100);
    assert(b[3] == q3 % 0x100);
    assert(b[4] == q4 % 0x100);
    assert(b[5] == q5 % 0x100);
    assert(b[6] == q6 % 0x100);
    assert(b[7] == q7 % 0x100);
    assert(u64_from_le_bytes(b, 0) == n);
    assert(d.len() == 12);
    assert(d[4] == b[0] && d[5] == b[1] && d[6] == b[2] && d[7] == b[3]);
    assert(d[8] == b[4] && d[9] == b[5] && d[10] == b[6] && d[11] == b[7]);
}

/// Reads a transfer request out of an instruction.
pub fn decode_transfer(ix: &Instruction) -> (request: Option<TransferRequest>)
    ensures
        request == request_of(*ix),
{
    let system = system_program_id();
    if !ix.program_id.same(&system) || ix.accounts.len() != 2 || ix.data.len() != 12 {
        return None;
    }
    if ix.data[0] != 2 || ix.data[1] != 0 || ix.data[2] != 0 || ix.data[3] != 0 {
        return None;
    }
    let amount: u64 = ix.data[4] as u64
        + 0x100 * (ix.data[5] as u64)
        + 0x1_0000 * (ix.data[6] as u64)
        + 0x100_0000 * (ix.data[7] as u64)
        + 0x1_0000_0000 * (ix.data[8] as u64)
        + 0x100_0000_0000 * (ix.data[9] as u64)
        + 0x1_0000_0000_0000 * (ix.data[10] as u64)
        + 0x100_0000_0000_0000 * (ix.data[11] as u64);
    Some(
        TransferRequest {
            source: ix.accounts[0].pubkey,
            destination: ix.accounts[1].pubkey,
            amount,
        },
    )
}

} // verus!
