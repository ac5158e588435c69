//! Consensus-critical primitives of a blockchain node: derivation of on-chain
//! randomness, a version-stable view of actor state, and resolution of any
//! address to its signing key.

pub mod error;
pub mod primitives;
pub mod hashing;
pub mod chain_rand;
pub mod table;
pub mod state_tree;
pub mod account;
pub mod cron;
pub mod interpreter;
