//! The stores as the operations see them: how each storage call changes them,
//! where a whole operation leaves them, and what holds of every such run.

pub mod topup;
pub mod transfer;
pub mod withdraw;
