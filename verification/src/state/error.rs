//! Why the ledger refuses a registration or a transaction.

use vstd::prelude::*;

verus! {

/// The ordinary negative results of the ledger. None of them changes the state.
#[derive(Clone, Copy, Debug, PartialEq, Eq, Structural)]
pub enum LedgerError {
    /// No account is registered under the sender's identifier.
    AccountNotFound,
    /// The sender's account is not committed under the current root.
    InvalidInclusionProof,
    /// The nonce of the transaction is not the one the sender holds.
    NonceMismatch,
    /// The signature is not the sender's signature over sender and nonce.
    InvalidSignature,
    /// Every position of the tree is taken.
    CapacityExceeded,
    /// The sender's nonce is at the end of the 64-bit range.
    ArithmeticOverflow,
}

} // verus!
