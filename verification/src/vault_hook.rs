//! The vault with a whitelist-gated transfer hook: an admin keeps a vault
//! for one mint and a whitelist of users, and the hook lets a transfer
//! through only for a whitelisted owner.
pub mod error;
pub mod state;
pub mod token_data;
pub mod metas;
pub mod instructions;
