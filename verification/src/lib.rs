//! The configuration of a token command line session: which settings, signers and program it uses,
//! and what it makes of the accounts that are fetched for it.

pub mod address_lookup;
pub mod args;
pub mod cli_config;
pub mod config;
pub mod error;
pub mod programs;
pub mod protocol;
pub mod pubkey;
pub mod session_laws;
pub mod setup;
pub mod setup_outcome;
pub mod signer;
pub mod text;
pub mod urls;
