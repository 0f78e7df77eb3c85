//! The decisions of each operation, as machines that the caller drives: a
//! machine names the storage call that it waits for, is told how the call went,
//! and moves on until it has a result.

pub mod topup;
pub mod transfer;
pub mod withdraw;
