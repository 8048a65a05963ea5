//! Verified models of a small family of token programs: a time-locked escrow
//! swap, a whitelist-gated transfer hook with its vault, a per-user whitelist
//! registry and a randomness callback.
pub mod address;
pub mod escrow;
pub mod pda;
pub mod vault_hook;
pub mod vrf;
pub mod whitelist;
