//! A time-locked escrow: value deposited by an owner is held under a
//! deterministic address until an unlock time, and paid back exactly once.

pub mod address;
pub mod error;
pub mod escrow;
pub mod identity;
pub mod laws;
pub mod ledger;
pub mod lock;
pub mod record;
