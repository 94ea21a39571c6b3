//! A pooled-funding escrow: depositors fund a pool, the pooled principal is
//! released to a borrower, and once the borrower has repaid, every depositor
//! claims a pro-rata share of what the pool then holds.
//!
//! - [`state`] and [`error`]: the lifecycle states and the refusals.
//! - [`settlement`]: the share of a pot, through a 256-bit product.
//! - [`ledger`]: the pool's ledger and the rules that move it, as functions
//!   of plain values. Whoever keeps the records elsewhere applies these.
//! - [`book`] and [`asset`]: amounts by account, and an asset ledger on it.
//! - [`pool`]: the pool with its records in memory, run against an asset
//!   ledger; every operation goes through in full or changes nothing.
//! - [`laws`]: what holds of every call and every sequence of calls.
//! - [`invoice`]: the invoice registry.

pub mod asset;
pub mod book;
pub mod error;
pub mod invoice;
pub mod laws;
pub mod ledger;
pub mod pool;
pub mod settlement;
pub mod state;
