//! Balance mutation orchestrator for a payment gateway.
//!
//! A top-up, a transfer or a withdrawal writes a ledger record and one or two
//! balances, in storage that cannot write them together. The orchestrator
//! orders the writes, ledger first, and answers any failure by taking back
//! what was written so far.
//!
//! - [`domain`] and [`errors`]: balances, ledger records, requests, failures.
//! - [`saga`]: what to do next, one machine per kind of record. A machine
//!   names the storage call that it waits for, is told how the call went, and
//!   moves on. It makes no call itself, so it can be driven against any
//!   storage.
//! - [`store`] and [`directory`]: storage held in memory, whose calls fail on
//!   a schedule.
//! - [`world`]: what the storage calls do to the stores, where a machine
//!   driven against them ends up, and what holds of every such run.
//! - [`services`]: the operations, run against the stores held in memory.
//! - [`reconcile`]: the balances held against the ledgers.
//! - [`answers`]: what the read-only operations report.

pub mod answers;
pub mod directory;
pub mod domain;
pub mod errors;
pub mod reconcile;
pub mod saga;
pub mod services;
pub mod store;
pub mod world;
