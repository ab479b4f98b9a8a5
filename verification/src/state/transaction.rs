//! Transactions: signed instructions that advance the nonce of their sender.

use vstd::prelude::*;
use vstd::bytes::spec_u64_to_le_bytes;
use rand::rngs::StdRng;
use crate::merkle_tree::{auth_siblings, merkle_root, path_accepts};
use crate::state::account::{account_encoding, AccountId, AccountPublicKey, Nonce};
use crate::state::error::LedgerError;
use crate::state::ledger::{Parameters, State};
use crate::state::schnorr::{
    rng_after_sign, schnorr_accepts, schnorr_public_key, schnorr_sign, schnorr_signature,
    schnorr_verify, AccountSecretKey, SignatureParameters,
};

verus! {

/// The bytes that a transaction's signature authorizes: the sender's
/// identifier, then the nonce, eight little-endian bytes each.
pub open spec fn signed_message(sender: u64, nonce: u64) -> Seq<u8> {
    spec_u64_to_le_bytes(sender) + spec_u64_to_le_bytes(nonce)
}

/// A signed instruction of an account to advance its nonce.
#[derive(Clone, Debug)]
pub struct Transaction {
    /// The account that sends the transaction.
    pub sender: AccountId,
    /// The nonce that the sender expects to hold.
    pub nonce: Nonce,
    /// The signature over the sender and the nonce: the response followed by
    /// the challenge.
    pub signature: Vec<u8>,
}

fn message_bytes(sender: AccountId, nonce: Nonce) -> (message: Vec<u8>)
    ensures
        message@ == signed_message(sender.0, nonce.0),
{
    let mut message = sender.to_bytes_le();
    let mut tail = nonce.to_bytes_le();
    message.append(&mut tail);
    message
}

impl Transaction {
    /// Whether the signature authorizes this sender and nonce under `public_key`.
    pub open spec fn authorized_by(&self, pp: SignatureParameters, public_key: Seq<u8>) -> bool {
        schnorr_accepts(pp, public_key, signed_message(self.sender.0, self.nonce.0), self.signature@)
    }

    /// Whether the transaction is valid for the ledger: the sender is
    /// registered, the sender's account is committed under the current root,
    /// the nonce is the one the sender holds, and the signature is the
    /// sender's.
    pub open spec fn valid(&self, parameters: &Parameters, state: &State) -> bool {
        let sender = self.sender.0;
        let account = state.accounts()[sender];
        &&& state.accounts().contains_key(sender)
        &&& self.sender_included(state)
        &&& account.nonce == self.nonce.0
        &&& self.authorized_by(parameters.sig_params, account.public_key)
    }

    /// Whether the sender's account is committed under the current root of
    /// the ledger: the inclusion proof of its position is accepted for its
    /// encoding.
    pub open spec fn sender_included(&self, state: &State) -> bool {
        let sender = self.sender.0;
        let account = state.accounts()[sender];
        path_accepts(
            sender as int,
            auth_siblings(state.leaves(), sender as int),
            merkle_root(state.leaves()),
            account_encoding(account.public_key, account.nonce),
        )
    }

    /// What the ledger answers to the transaction: the first rule that it
    /// breaks, in the order sender, inclusion, nonce, signature.
    pub open spec fn verdict(&self, parameters: &Parameters, state: &State) -> Result<
        (),
        LedgerError,
    > {
        let account = state.accounts()[self.sender.0];
        if !state.accounts().contains_key(self.sender.0) {
            Err(LedgerError::AccountNotFound)
        } else if !self.sender_included(state) {
            Err(LedgerError::InvalidInclusionProof)
        } else if account.nonce != self.nonce.0 {
            Err(LedgerError::NonceMismatch)
        } else if !self.authorized_by(parameters.sig_params, account.public_key) {
            Err(LedgerError::InvalidSignature)
        } else {
            Ok(())
        }
    }

    /// Whether the ledger accepts the transaction: the sender is registered,
    /// the nonce is the one the sender holds, and the signature is the
    /// sender's.
    pub open spec fn accepted(&self, parameters: &Parameters, state: &State) -> bool {
        let sender = self.sender.0;
        let account = state.accounts()[sender];
        &&& state.accounts().contains_key(sender)
        &&& account.nonce == self.nonce.0
        &&& self.authorized_by(parameters.sig_params, account.public_key)
    }

    /// A well-formed ledger commits to each of its accounts, so a transaction
    /// is valid for it exactly when the ledger accepts it.
    pub proof fn lemma_valid_iff_accepted(&self, parameters: &Parameters, state: &State)
        requires
            state.wf(),
        ensures
            self.valid(parameters, state) == self.accepted(parameters, state),
    {
        if state.accounts().contains_key(self.sender.0) {
            state.lemma_account_included(self.sender.0);
        }
    }

    /// Verify just the signature in the transaction.
    pub fn verify_signature(&self, pp: &SignatureParameters, pub_key: &AccountPublicKey) -> (ok:
        bool)
        ensures
            ok == self.authorized_by(*pp, pub_key@),
    {
        let message = message_bytes(self.sender, self.nonce);
        schnorr_verify(pp, pub_key.0.as_slice(), message.as_slice(), self.signature.as_slice())
    }

    /// Check the transaction against the given ledger state, and say which
    /// rule it breaks: the sender is registered, the sender's account is
    /// committed under the current root, the nonce is the one the sender
    /// holds, and the signature is the sender's. A well-formed ledger commits
    /// to each of its accounts, so it never answers `InvalidInclusionProof`.
    pub fn check(&self, parameters: &Parameters, state: &State) -> (r: Result<(), LedgerError>)
        requires
            state.wf(),
        ensures
            r == self.verdict(parameters, state),
            r.is_ok() == self.valid(parameters, state),
            r.is_ok() == self.accepted(parameters, state),
            state.accounts().contains_key(self.sender.0) ==> self.sender_included(state),
            r != Err::<(), LedgerError>(LedgerError::InvalidInclusionProof),
    {
        proof {
            self.lemma_valid_iff_accepted(parameters, state);
        }
        let sender_acc_info = match state.get_account_info(self.sender) {
            Some(info) => info,
            None => {
                return Err(LedgerError::AccountNotFound);
            },
        };
        proof {
            state.lemma_account_included(self.sender.0);
        }
        let path = match state.account_proof(self.sender) {
            Some(path) => path,
            None => {
                return Err(LedgerError::InvalidInclusionProof);
            },
        };
        let leaf = sender_acc_info.to_bytes_le();
        let root = state.root();
        if !path.verify(&root, leaf.as_slice()) {
            return Err(LedgerError::InvalidInclusionProof);
        }
        if sender_acc_info.nonce.0 != self.nonce.0 {
            return Err(LedgerError::NonceMismatch);
        }
        if !self.verify_signature(&parameters.sig_params, &sender_acc_info.public_key) {
            return Err(LedgerError::InvalidSignature);
        }
        Ok(())
    }

    /// Check that the transaction is valid for the given ledger state.
    pub fn validate(&self, parameters: &Parameters, state: &State) -> (ok: bool)
        requires
            state.wf(),
        ensures
            ok == self.valid(parameters, state),
            ok == self.accepted(parameters, state),
    {
        self.check(parameters, state).is_ok()
    }

    /// Create a transaction of `sender` for `nonce`, signed with `sender_sk`.
    /// Whether it is valid depends on the ledger it is submitted to.
    pub fn new(
        parameters: &Parameters,
        sender: AccountId,
        nonce: Nonce,
        sender_sk: &AccountSecretKey,
        rng: &mut StdRng,
    ) -> (tx: Self)
        ensures
            tx.sender == sender,
            tx.nonce == nonce,
            tx.signature@ == schnorr_signature(
                parameters.sig_params,
                *sender_sk,
                signed_message(sender.0, nonce.0),
                *old(rng),
            ),
            tx.authorized_by(
                parameters.sig_params,
                schnorr_public_key(parameters.sig_params, *sender_sk),
            ),
            *final(rng) == rng_after_sign(
                parameters.sig_params,
                *sender_sk,
                signed_message(sender.0, nonce.0),
                *old(rng),
            ),
    {
        let message = message_bytes(sender, nonce);
        let signature = schnorr_sign(&parameters.sig_params, sender_sk, message.as_slice(), rng).unwrap();
        Transaction { sender, nonce, signature }
    }
}

} // verus!
