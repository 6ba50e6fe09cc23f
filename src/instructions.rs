//! The memo instruction: its account metadata, its descriptor, and its
//! invocation through the runtime.

use crate::runtime::{account_key, cpi_account_limit, invoke_signed_raw};
use pinocchio::account_info::AccountInfo;
use pinocchio::instruction::{AccountMeta, Signer};
use pinocchio::program_error::ProgramError;
use pinocchio::pubkey::Pubkey;
use vstd::prelude::*;
use vstd::string::StringSliceAdditionalSpecFns;

verus! {

/// The largest number of accounts that one cross-program call may carry: the
/// runtime's own limit, which the builders read from pinocchio when they run.
pub const MAX_CPI_ACCOUNTS: usize = 64;

/// Address of the memo program (`MemoSq4gqABAXKb96qnH8TysNcWxMyWCqXgDLGmfcHr`).
pub const ID: Pubkey = [
    5, 74, 83, 90, 153, 41, 33, 6, 77, 36, 232, 113, 96, 218, 56, 124,
    124, 53, 181, 221, 188, 146, 187, 129, 228, 31, 168, 64, 65, 5, 68, 141,
];

/// Errors of building or invoking a memo instruction.
#[derive(Debug)]
pub enum MemoError {
    /// More signing accounts were given than one call may carry.
    TooManyAccounts,
    /// The runtime or the memo program rejected the call.
    Invocation(ProgramError),
}

/// A memo instruction ready to be handed to the runtime.
pub struct MemoInstruction<'a> {
    /// The program that is called.
    pub program_id: Pubkey,
    /// One entry per signing account, in the caller's order.
    pub accounts: Vec<AccountMeta<'a>>,
    /// The memo bytes.
    pub data: &'a [u8],
}

/// `m` marks the account with address `key` as a readonly signer.
pub open spec fn is_readonly_signer_for(m: AccountMeta, key: Pubkey) -> bool {
    &&& *m.pubkey == key
    &&& m.is_signer
    &&& !m.is_writable
}

/// `metas` holds one readonly-signer entry per key, in the order of `keys`.
pub open spec fn metas_for_keys(metas: Seq<AccountMeta>, keys: Seq<&Pubkey>) -> bool {
    &&& metas.len() == keys.len()
    &&& forall|i: int| 0 <= i < keys.len() ==> is_readonly_signer_for(#[trigger] metas[i], *keys[i])
}

/// `ix` is the memo instruction for `keys` and `data`.
pub open spec fn is_memo_instruction(ix: MemoInstruction, keys: Seq<&Pubkey>, data: Seq<u8>) -> bool {
    &&& ix.program_id == ID
    &&& metas_for_keys(ix.accounts@, keys)
    &&& ix.data@ == data
}

/// Builds one readonly-signer metadata entry per key, in order, into a buffer
/// whose capacity is the per-call account limit. Fails before any write when
/// there are more keys than that limit.
pub fn readonly_signer_metas<'a>(keys: &[&'a Pubkey]) -> (r: Result<Vec<AccountMeta<'a>>, MemoError>)
    ensures
        keys@.len() <= MAX_CPI_ACCOUNTS <==> r is Ok,
        r matches Err(e) ==> e is TooManyAccounts,
        r matches Ok(metas) ==> metas_for_keys(metas@, keys@),
{
    let limit = cpi_account_limit();
    let n = keys.len();
    if n > limit {
        return Err(MemoError::TooManyAccounts);
    }
    let mut metas: Vec<AccountMeta<'a>> = Vec::with_capacity(limit);
    let mut i: usize = 0;
    while i < n
        invariant
            n == keys@.len(),
            i <= n,
            metas_for_keys(metas@, keys@.take(i as int)),
        decreases n - i,
    {
        metas.push(AccountMeta::readonly_signer(keys[i]));
        i = i + 1;
    }
    assert(keys@.take(n as int) =~= keys@);
    Ok(metas)
}

/// Builds the memo instruction that records `payload`, signed by the accounts
/// with the given `keys`.
pub fn build<'a>(keys: &[&'a Pubkey], payload: &'a [u8]) -> (r: Result<MemoInstruction<'a>, MemoError>)
    ensures
        keys@.len() <= MAX_CPI_ACCOUNTS <==> r is Ok,
        r matches Err(e) ==> e is TooManyAccounts,
        r matches Ok(ix) ==> is_memo_instruction(ix, keys@, payload@),
{
    match readonly_signer_metas(keys) {
        Ok(accounts) => Ok(MemoInstruction { program_id: ID, accounts, data: payload }),
        Err(e) => Err(e),
    }
}

/// Builds the memo instruction that records the UTF-8 bytes of `text`.
pub fn build_text<'a>(keys: &[&'a Pubkey], text: &'a str) -> (r: Result<MemoInstruction<'a>, MemoError>)
    ensures
        keys@.len() <= MAX_CPI_ACCOUNTS <==> r is Ok,
        r matches Err(e) ==> e is TooManyAccounts,
        r matches Ok(ix) ==> is_memo_instruction(ix, keys@, text.spec_bytes()),
{
    build(keys, text.as_bytes())
}

/// Maps what the runtime returned for an invocation to this library's result:
/// success stays success, and a runtime error is carried as `Invocation`.
pub fn invocation_result(r: Result<(), ProgramError>) -> (out: Result<(), MemoError>)
    ensures
        r is Ok <==> out is Ok,
        r matches Err(e) ==> out matches Err(MemoError::Invocation(f)) && f == e,
{
    match r {
        Ok(()) => Ok(()),
        Err(e) => Err(MemoError::Invocation(e)),
    }
}

/// What every invocation of a memo with `num_signers` signing accounts
/// returns, whatever the seeds: `TooManyAccounts` exactly when the accounts
/// exceed the per-call limit, and otherwise the runtime's own verdict.
pub open spec fn invocation_outcome(num_signers: nat, r: Result<(), MemoError>) -> bool {
    num_signers > MAX_CPI_ACCOUNTS <==> r matches Err(MemoError::TooManyAccounts)
}

/// Memo instruction.
///
/// Accounts: `0..N`, the N signing accounts, each a readonly signer.
pub struct Memo<'a> {
    /// Signing accounts.
    pub signers: &'a [&'a AccountInfo],
    /// Memo text.
    pub memo: &'a str,
}

impl<'a> Memo<'a> {
    /// Builds the instruction that records this memo, with one readonly-signer
    /// entry per signing account, in order.
    pub fn instruction(&self) -> (r: Result<MemoInstruction<'a>, MemoError>)
        ensures
            self.signers@.len() <= MAX_CPI_ACCOUNTS <==> r is Ok,
            r matches Err(e) ==> e is TooManyAccounts,
            r matches Ok(ix) ==> {
                &&& ix.program_id == ID
                &&& ix.accounts@.len() == self.signers@.len()
                &&& forall|i: int| 0 <= i < ix.accounts@.len() ==>
                    (#[trigger] ix.accounts@[i]).is_signer && !ix.accounts@[i].is_writable
                &&& ix.data@ == self.memo.spec_bytes()
            },
    {
        let n = self.signers.len();
        if n > cpi_account_limit() {
            return Err(MemoError::TooManyAccounts);
        }
        let mut keys: Vec<&'a Pubkey> = Vec::with_capacity(n);
        let mut i: usize = 0;
        while i < n
            invariant
                n == self.signers@.len(),
                i <= n,
                keys@.len() == i,
            decreases n - i,
        {
            keys.push(account_key(self.signers[i]));
            i = i + 1;
        }
        let r = build_text(keys.as_slice(), self.memo);
        proof {
            if r is Ok {
                let metas = r->Ok_0.accounts@;
                assert forall|i: int| 0 <= i < metas.len() implies
                    (#[trigger] metas[i]).is_signer && !metas[i].is_writable by {
                    assert(is_readonly_signer_for(metas[i], *keys@[i]));
                }
            }
        }
        r
    }

    /// Invokes the memo program as an ordinary signer-only call.
    #[inline(always)]
    pub fn invoke(&self) -> (r: Result<(), MemoError>)
        ensures
            invocation_outcome(self.signers@.len(), r),
    {
        self.invoke_signed(&[])
    }

    /// Invokes the memo program, letting the program-derived addresses named
    /// by `signers_seeds` sign for the calling program.
    pub fn invoke_signed(&self, signers_seeds: &[Signer]) -> (r: Result<(), MemoError>)
        ensures
            invocation_outcome(self.signers@.len(), r),
    {
        match self.instruction() {
            Ok(ix) => invocation_result(invoke_signed_raw(&ix, self.signers, signers_seeds)),
            Err(e) => Err(e),
        }
    }
}

} // verus!
