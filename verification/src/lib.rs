//! A minimal rollup-style ledger: accounts committed to one Merkle root and
//! advanced by signed transactions that increment per-account nonces.

mod bytes;
pub mod cmd;
pub mod crh;
pub mod merkle_tree;
pub mod search;
pub mod state;
