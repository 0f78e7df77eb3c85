//! The operations, run against stores held in memory.

pub mod topup;
pub mod transfer;
pub mod withdraw;
