//! The narrow interface to the token-transfer service: holding accounts as the engine
//! reads them, transfers as it asks for them, and the instruction that carries a transfer
//! to the token program.

use vstd::prelude::*;
use crate::address::Address;
use crate::error::ErrorCode;
use crate::wire::le_bytes_u64;
use solana_program::program_error::ProgramError;
use solana_program::pubkey::Pubkey;

verus! {

/// What the logic reads of a holding account: its address, its token type and its owner.
#[derive(Clone, Copy, Debug, PartialEq, Eq)]
pub struct TokenAccount {
    pub address: Address,
    pub mint: Address,
    pub owner: Address,
}

/// A movement of value for the token-transfer service to perform.
#[derive(Clone, Copy, Debug, PartialEq, Eq)]
pub struct Transfer {
    /// Holding account that is debited.
    pub source: Address,
    /// Holding account that is credited.
    pub destination: Address,
    /// Identity that authorizes the debit.
    pub authority: Address,
    pub amount: u64,
}

/// One account of an instruction, and how the instruction uses it.
#[derive(Clone, Copy, Debug, PartialEq, Eq)]
pub struct AccountMeta {
    pub pubkey: Address,
    pub is_signer: bool,
    pub is_writable: bool,
}

/// A transfer instruction for the token program, as plain values.
#[derive(Clone, Debug, PartialEq, Eq)]
pub struct TransferInstruction {
    pub program_id: Address,
    pub accounts: Vec<AccountMeta>,
    pub data: Vec<u8>,
}

/// `ProgramError` of solana_program: the failure that its instruction builders return,
/// carried as a value of which nothing is known.
#[verifier::external_type_specification]
#[verifier::external_body]
pub struct ExProgramError(ProgramError);

/// The address of the token program.
pub open spec fn token_program_id() -> Seq<u8> {
    seq![
        6u8, 221, 246, 225, 215, 101, 161, 147, 217, 203, 225, 70, 206, 235, 121, 172, 28, 180,
        133, 237, 95, 91, 55, 145, 58, 140, 245, 133, 126, 255, 0, 169,
    ]
}

impl TransferInstruction {
    /// The instruction is the transfer `t` addressed to `token_program`: the source and
    /// the destination writable, the authority the one signer, and as data the tag 3 and
    /// the amount.
    pub open spec fn carries(&self, token_program: Seq<u8>, t: Transfer) -> bool {
        &&& self.program_id@ == token_program
        &&& self.accounts@ == seq![
            AccountMeta { pubkey: t.source, is_signer: false, is_writable: true },
            AccountMeta { pubkey: t.destination, is_signer: false, is_writable: true },
            AccountMeta { pubkey: t.authority, is_signer: true, is_writable: false },
        ]
        &&& self.data@ == seq![3u8] + le_bytes_u64(t.amount)
    }
}

/// Calls `instruction::transfer` of spl_token with no multisignature signers. That
/// function fails for any program but the token program, and else builds the instruction
/// from its arguments: the source and the destination as writable accounts, the authority
/// as a read-only signer, and the data of its `Transfer` variant, which is the tag 3 and
/// the amount in eight little-endian bytes.
#[verifier::external_body]
fn spl_transfer(
    token_program: &Address,
    source: &Address,
    destination: &Address,
    authority: &Address,
    amount: u64,
) -> (r: Result<TransferInstruction, ProgramError>)
    ensures
        r is Ok <==> token_program@ == token_program_id(),
        r matches Ok(ix) ==> ix.carries(
            token_program@,
            Transfer { source: *source, destination: *destination, authority: *authority, amount },
        ),
{
    let key = |a: &Address| Pubkey::new_from_array(a.bytes);
    let (program, from, to) = (key(token_program), key(source), key(destination));
    let ix = spl_token::instruction::transfer(&program, &from, &to, &key(authority), &[], amount)?;
    let meta = |m: &solana_program::instruction::AccountMeta| AccountMeta {
        pubkey: Address { bytes: m.pubkey.to_bytes() },
        is_signer: m.is_signer,
        is_writable: m.is_writable,
    };
    let accounts: Vec<AccountMeta> = ix.accounts.iter().map(meta).collect();
    Ok(TransferInstruction { program_id: Address { bytes: ix.program_id.to_bytes() }, accounts, data: ix.data })
}

/// Builds the instruction that carries `transfer` to `token_program`, or fails with
/// `IncorrectProgramId` where that is not the token program.
pub fn transfer_instruction(token_program: &Address, transfer: &Transfer) -> (r: Result<
    TransferInstruction,
    ErrorCode,
>)
    ensures
        r is Ok <==> token_program@ == token_program_id(),
        r matches Ok(ix) ==> ix.carries(token_program@, *transfer),
        r matches Err(e) ==> e == ErrorCode::IncorrectProgramId,
{
    match spl_transfer(
        token_program,
        &transfer.source,
        &transfer.destination,
        &transfer.authority,
        transfer.amount,
    ) {
        Ok(ix) => Ok(ix),
        Err(_) => Err(ErrorCode::IncorrectProgramId),
    }
}

} // verus!
