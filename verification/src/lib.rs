//! Ledger-side core of a peer-to-peer lending marketplace.
//!
//! Matching, bookkeeping and trust decisions happen on a ledger this library
//! models in memory; collateral and repayment events happen on external
//! blockchains and enter the ledger only as claims that a verification oracle
//! confirms.  Every entity is content-addressed: its identifier is a hash of a
//! canonical encoding of its defining fields.

pub mod crypto;
pub mod deals;
pub mod encode;
pub mod hashing;
pub mod ids;
pub mod laws;
pub mod ledger;
pub mod oracle;
pub mod orders;
pub mod reaper;
pub mod registry;
pub mod transfers;
pub mod types;
pub mod util;
pub mod verify;
