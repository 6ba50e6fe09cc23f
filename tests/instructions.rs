use memo::instructions::{
    build, build_text, invocation_result, readonly_signer_metas, ID, MAX_CPI_ACCOUNTS,
};
use memo::{Memo, MemoError};
use pinocchio::program_error::ProgramError;
use pinocchio::pubkey::Pubkey;

fn keys(n: usize) -> Vec<Pubkey> {
    (0..n).map(|i| [(i % 251) as u8 + 1; 32]).collect()
}

fn refs(keys: &[Pubkey]) -> Vec<&Pubkey> {
    keys.iter().collect()
}

#[test]
fn limit_matches_runtime() {
    assert_eq!(MAX_CPI_ACCOUNTS, pinocchio::cpi::MAX_CPI_ACCOUNTS);
    assert_eq!(MAX_CPI_ACCOUNTS, 64);
}

#[test]
fn three_signers_hello() {
    let a: Pubkey = [1; 32];
    let b: Pubkey = [2; 32];
    let c: Pubkey = [3; 32];
    let ix = build_text(&[&a, &b, &c], "hello").unwrap();
    assert_eq!(ix.program_id, ID);
    assert_eq!(ix.accounts.len(), 3);
    let expected = [a, b, c];
    for (meta, key) in ix.accounts.iter().zip(expected.iter()) {
        assert_eq!(meta.pubkey, key);
        assert!(meta.is_signer);
        assert!(!meta.is_writable);
    }
    assert_eq!(ix.data, b"hello");
}

#[test]
fn no_signers_empty_memo() {
    let ix = build(&[], b"").unwrap();
    assert_eq!(ix.accounts.len(), 0);
    assert!(ix.data.is_empty());
    assert_eq!(ix.program_id, ID);
}

#[test]
fn every_count_up_to_limit_succeeds() {
    let ks = keys(MAX_CPI_ACCOUNTS);
    for n in 0..=MAX_CPI_ACCOUNTS {
        let rs = refs(&ks[..n]);
        let metas = readonly_signer_metas(&rs).unwrap();
        assert_eq!(metas.len(), n);
    }
}

#[test]
fn exactly_limit_fills_buffer() {
    let ks = keys(MAX_CPI_ACCOUNTS);
    let rs = refs(&ks);
    let ix = build(&rs, b"full").unwrap();
    assert_eq!(ix.accounts.len(), MAX_CPI_ACCOUNTS);
    for (i, meta) in ix.accounts.iter().enumerate() {
        assert_eq!(meta.pubkey, &ks[i]);
        assert!(meta.is_signer && !meta.is_writable);
    }
}

#[test]
fn one_over_limit_fails() {
    let ks = keys(MAX_CPI_ACCOUNTS + 1);
    let rs = refs(&ks);
    assert!(matches!(build(&rs, b"x"), Err(MemoError::TooManyAccounts)));
    assert!(matches!(readonly_signer_metas(&rs), Err(MemoError::TooManyAccounts)));
    assert!(matches!(build_text(&rs, "x"), Err(MemoError::TooManyAccounts)));
}

#[test]
fn far_over_limit_fails() {
    let ks = keys(300);
    let rs = refs(&ks);
    assert!(matches!(build(&rs, b""), Err(MemoError::TooManyAccounts)));
}

#[test]
fn text_and_bytes_give_same_data() {
    let a: Pubkey = [9; 32];
    let text = "gm, caf\u{e9} \u{1f600}";
    let from_text = build_text(&[&a], text).unwrap();
    let from_bytes = build(&[&a], text.as_bytes()).unwrap();
    assert_eq!(from_text.data, from_bytes.data);
    assert_eq!(from_text.data, text.as_bytes());
    assert_eq!(from_text.data.len(), 14);
}

#[test]
fn order_of_keys_is_kept() {
    let a: Pubkey = [7; 32];
    let b: Pubkey = [5; 32];
    let metas = readonly_signer_metas(&[&a, &b, &a]).unwrap();
    assert_eq!(metas[0].pubkey, &a);
    assert_eq!(metas[1].pubkey, &b);
    assert_eq!(metas[2].pubkey, &a);
}

#[test]
fn runtime_error_is_carried() {
    assert!(matches!(invocation_result(Ok(())), Ok(())));
    assert!(matches!(
        invocation_result(Err(ProgramError::MissingRequiredSignature)),
        Err(MemoError::Invocation(ProgramError::MissingRequiredSignature))
    ));
    assert!(matches!(
        invocation_result(Err(ProgramError::InvalidArgument)),
        Err(MemoError::Invocation(ProgramError::InvalidArgument))
    ));
}

#[test]
fn memo_without_signers_builds_and_dispatches() {
    let memo = Memo { signers: &[], memo: "" };
    let ix = memo.instruction().unwrap();
    assert_eq!(ix.accounts.len(), 0);
    assert!(ix.data.is_empty());
    assert!(memo.invoke().is_ok());
}

#[test]
fn empty_seeds_same_as_unseeded() {
    let memo = Memo { signers: &[], memo: "hello" };
    let ix = memo.instruction().unwrap();
    assert_eq!(ix.data, b"hello");
    assert_eq!(memo.invoke().is_ok(), memo.invoke_signed(&[]).is_ok());
}
