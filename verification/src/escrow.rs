//! The escrow: a two-party token swap held by a vault until it is taken or
//! refunded.
pub mod error;
pub mod state;
pub mod layout;
pub mod model;
pub mod laws;
pub mod ledger;
mod accounts;
mod book;
mod sums;
