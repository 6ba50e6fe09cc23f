//! Building and dispatching the cross-program call that asks the memo
//! program to record a payload, signed by a list of readonly signers.

pub mod instructions;
mod runtime;

pub use instructions::{Memo, MemoError, MemoInstruction};
