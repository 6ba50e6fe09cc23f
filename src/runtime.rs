//! The runtime types and calls of `pinocchio` that the instruction builder
//! relies on, with the contracts taken from that crate's source.

use crate::instructions::MemoInstruction;
use pinocchio::account_info::AccountInfo;
use pinocchio::cpi::slice_invoke_signed;
use pinocchio::instruction::{AccountMeta, Instruction, Signer};
use pinocchio::program_error::ProgramError;
use pinocchio::pubkey::Pubkey;
use vstd::prelude::*;

verus! {

/// A pinocchio account metadata entry: its fields are public and read as they are.
#[verifier::external_type_specification]
pub struct ExAccountMeta<'a>(AccountMeta<'a>);

/// A handle on an account of the running transaction, owned by the runtime.
#[verifier::external_type_specification]
#[verifier::external_body]
pub struct ExAccountInfo(AccountInfo);

/// Seeds that let a program-derived address sign; passed on unchanged.
#[verifier::external_type_specification]
#[verifier::external_body]
pub struct ExSigner<'a, 'b>(Signer<'a, 'b>);

/// The runtime's error type, carried through unchanged.
#[verifier::external_type_specification]
#[verifier::external_body]
pub struct ExProgramError(ProgramError);

/// Relies on `AccountMeta::readonly_signer`, which builds the entry
/// `{ pubkey, is_writable: false, is_signer: true }`.
pub assume_specification<'a>[ AccountMeta::<'a>::readonly_signer ](pubkey: &'a Pubkey) -> (r: AccountMeta<'a>)
    ensures
        r.pubkey == pubkey,
        !r.is_writable,
        r.is_signer,
;

/// Relies on `pinocchio::cpi::MAX_CPI_ACCOUNTS`, the runtime's per-call
/// account limit, which pinocchio defines as 64.
#[verifier::external_body]
pub(crate) fn cpi_account_limit() -> (r: usize)
    ensures
        r == crate::instructions::MAX_CPI_ACCOUNTS,
{
    pinocchio::cpi::MAX_CPI_ACCOUNTS
}

/// Relies on `AccountInfo::key`, which reads the account's address from the
/// runtime's account record; nothing is claimed of its value.
#[verifier::external_body]
pub(crate) fn account_key<'a>(account: &'a AccountInfo) -> (r: &'a Pubkey) {
    account.key()
}

/// Relies on `pinocchio::cpi::slice_invoke_signed`, which hands the
/// instruction, the accounts and the signer seeds to the runtime and returns
/// whatever the runtime or the invoked program decided.
#[verifier::external_body]
pub(crate) fn invoke_signed_raw(
    ix: &MemoInstruction,
    accounts: &[&AccountInfo],
    signers_seeds: &[Signer],
) -> (r: Result<(), ProgramError>) {
    let instruction = Instruction {
        program_id: &ix.program_id,
        accounts: ix.accounts.as_slice(),
        data: ix.data,
    };
    slice_invoke_signed(&instruction, accounts, signers_seeds)
}

} // verus!
