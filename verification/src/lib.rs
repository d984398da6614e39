//! A custodial exchange booth: one administrator, two assets, two vaults.
//!
//! The booth record and its vaults live at addresses derived from fixed
//! seeds. Every operation derives those addresses again and holds them
//! against the accounts it is handed before it trusts any of them, and every
//! transfer out of a vault is authorised by the derivation of the booth's
//! address, since a vault has no key of its own.

pub mod account_info;
pub mod amount;
pub mod errors;
pub mod instruction;
pub mod processor;
pub mod pubkey;
pub mod service;
pub mod state;
pub mod token;
