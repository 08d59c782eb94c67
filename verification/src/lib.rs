//! Core data types of a shielded-ledger client: fees, liquidity positions,
//! the block builder of the commitment tree, and the command-line dispatch
//! decisions, each with a machine-checked contract.

pub mod bytes;
pub mod hash;
pub mod bech32str;
pub mod asset;
pub mod error;
pub mod value;
pub mod proto;
pub mod dex;
pub mod transaction;
pub mod command;
pub mod block;
pub mod sync;
