//! The ledger: accounts, transactions and the state they advance.

pub mod account;
pub mod error;
pub mod ledger;
pub mod schnorr;
pub mod signature;
pub mod transaction;
