//! The ledger state: the accounts, their Merkle commitment and the rules by
//! which registrations and transactions advance them.

use vstd::prelude::*;
use std::collections::HashMap;
use rand::rngs::StdRng;
use crate::crh::leaf_digest;
use crate::merkle_tree::{
    auth_siblings, blank_leaves, collision_free, digests_of, lemma_inclusion_round_trip,
    lemma_pow2_max, lemma_pow2_monotone, lemma_tamper_rejected, merkle_root, path_accepts, pow2,
    AccountMerkleTree, Path, Root, MAX_HEIGHT,
};
use crate::state::account::{
    account_encoding, AccountId, AccountInformation, AccountPublicKey, Nonce,
};
use crate::state::error::LedgerError;
use crate::state::schnorr::{
    copy_parameters, drawn_secret_key, rng_after_keygen, rng_after_setup, schnorr_keygen, schnorr_public_key,
    schnorr_setup, setup_parameters, AccountSecretKey, SignatureParameters,
};
use crate::state::transaction::Transaction;

verus! {

broadcast use vstd::std_specs::hash::group_hash_axioms;

/// The greatest number of accounts a ledger may be created for.
pub const MAX_ACCOUNTS: usize = 0x8000_0000;

/// The parameters that are used in transaction creation and validation.
pub struct Parameters {
    pub sig_params: SignatureParameters,
}

impl Clone for Parameters {
    /// A copy of the parameters.
    fn clone(&self) -> (copy: Self)
        ensures
            copy == *self,
    {
        Parameters { sig_params: copy_parameters(&self.sig_params) }
    }
}

impl Parameters {
    /// Samples parameters from the random source.
    pub fn sample(rng: &mut StdRng) -> (parameters: Self)
        ensures
            parameters.sig_params == setup_parameters(*old(rng)),
            *final(rng) == rng_after_setup(*old(rng)),
    {
        Parameters { sig_params: schnorr_setup(rng).unwrap() }
    }
}

/// What the ledger knows of an account, as plain values.
pub struct AccountView {
    pub public_key: Seq<u8>,
    pub nonce: u64,
}

impl View for AccountInformation {
    type V = AccountView;

    open spec fn view(&self) -> AccountView {
        AccountView { public_key: self.public_key@, nonce: self.nonce.0 }
    }
}

/// Whether `h` is the least exponent for which two to the power `h` reaches `x`.
pub open spec fn is_ceil_log2(x: nat, h: nat) -> bool {
    pow2(h) >= x && (h > 0 ==> pow2((h - 1) as nat) < x)
}

/// Calls `ark_std::log2`. Trusted: the result is the base-two logarithm of
/// `x`, rounded up, and 0 for 0.
#[verifier::external_body]
fn ceil_log2(x: usize) -> (h: u32)
    ensures
        is_ceil_log2(x as nat, h as nat),
{
    ark_std::log2(x)
}

/// The ledger: accounts by identifier, the Merkle tree that commits to them,
/// and the next identifier to assign.
///
/// The leaf at the position of an identifier holds the digest of that
/// account's encoding; every other leaf is blank. Identifiers are assigned
/// from 1 up, so a tree of `n` leaves has room for `n - 1` accounts.
///
/// The keys are kept with their identifiers as a list in the order of
/// registration: a key may be registered more than once, and the list is
/// read from its end to find the latest account of a key.
#[derive(Clone)]
pub struct State {
    next_available_account: Option<AccountId>,
    account_merkle_tree: AccountMerkleTree,
    id_to_account_info: HashMap<u64, AccountInformation>,
    pub_key_to_id: Vec<(AccountPublicKey, AccountId)>,
}

impl State {
    /// The registered accounts, by identifier.
    pub closed spec fn accounts(&self) -> Map<u64, AccountView> {
        Map::new(
            |id: u64| self.id_to_account_info@.contains_key(id),
            |id: u64| self.id_to_account_info@[id]@,
        )
    }

    /// The leaf digests of the account tree, by position.
    pub closed spec fn leaves(&self) -> Seq<Seq<u8>> {
        self.account_merkle_tree.leaves()
    }

    /// The height of the account tree.
    pub closed spec fn height(&self) -> nat {
        self.account_merkle_tree.height()
    }

    /// The identifier that the next registration will get, if there is room for one.
    pub closed spec fn next_id(&self) -> Option<u64> {
        match self.next_available_account {
            Some(id) => Some(id.0),
            None => None,
        }
    }

    /// One more than the greatest identifier assigned so far.
    pub open spec fn bound(&self) -> int {
        match self.next_id() {
            Some(id) => id as int,
            None => self.leaves().len() as int,
        }
    }

    /// The number of accounts that can still be registered: the positions of
    /// the tree from the next identifier on.
    pub open spec fn room(&self) -> int {
        self.leaves().len() - self.bound()
    }

    /// The digest that the leaf at `position` has to hold.
    pub open spec fn expected_leaf(&self, position: int) -> Seq<u8> {
        if 1 <= position < self.bound() {
            let account = self.accounts()[position as u64];
            leaf_digest(account_encoding(account.public_key, account.nonce))
        } else {
            Seq::empty()
        }
    }

    /// The tree is well-formed and commits to exactly the registered accounts;
    /// these are the identifiers from 1 up to the next one to assign, which is
    /// missing only when every position of the tree is taken; and the list of
    /// keys names, in the order of registration, the key of each account.
    pub closed spec fn wf(&self) -> bool {
        &&& self.account_merkle_tree.wf()
        &&& self.leaves().len() == pow2(self.height())
        &&& self.leaves().len() <= MAX_ACCOUNTS
        &&& match self.next_id() {
            Some(id) => 1 <= id < self.leaves().len(),
            None => true,
        }
        &&& forall|id: u64| #[trigger]
            self.id_to_account_info@.contains_key(id) <==> 1 <= id < self.bound()
        &&& forall|position: int|
            0 <= position < self.leaves().len() ==> #[trigger] self.leaves()[position]
                == self.expected_leaf(position)
        &&& self.pub_key_to_id.len() == self.bound() - 1
        &&& forall|k: int|
            0 <= k < self.pub_key_to_id.len() ==> {
                &&& (#[trigger] self.pub_key_to_id[k]).0@ == self.id_to_account_info@[(k
                    + 1) as u64].public_key@
                &&& self.pub_key_to_id[k].1.0 == k + 1
            }
    }

    /// In a well-formed ledger the accounts are those with an identifier from
    /// 1 up to `bound`, each below the number of leaves, and every leaf holds
    /// the digest it has to hold.
    pub proof fn lemma_wf(&self)
        requires
            self.wf(),
        ensures
            self.leaves().len() == pow2(self.height()),
            self.height() <= MAX_HEIGHT,
            1 <= self.bound() <= self.leaves().len() <= MAX_ACCOUNTS,
            self.next_id() is Some ==> self.bound() < self.leaves().len(),
            forall|id: u64| #[trigger] self.accounts().contains_key(id) <==> 1 <= id < self.bound(),
            forall|position: int|
                0 <= position < self.leaves().len() ==> #[trigger] self.leaves()[position]
                    == self.expected_leaf(position),
    {
        self.account_merkle_tree.lemma_leaf_count();
    }

    /// The account under `id` is committed: the inclusion proof of its
    /// position is accepted for its encoding against the current root.
    pub proof fn lemma_account_included(&self, id: u64)
        requires
            self.wf(),
            self.accounts().contains_key(id),
        ensures
            id < self.leaves().len(),
            path_accepts(
                id as int,
                auth_siblings(self.leaves(), id as int),
                merkle_root(self.leaves()),
                account_encoding(self.accounts()[id].public_key, self.accounts()[id].nonce),
            ),
    {
        self.lemma_wf();
        let account = self.accounts()[id];
        let leaf = account_encoding(account.public_key, account.nonce);
        assert(self.leaves().update(id as int, leaf_digest(leaf)) =~= self.leaves());
        lemma_inclusion_round_trip(self.leaves(), self.height(), id as int, leaf);
    }

    /// Create an empty ledger that supports `num_accounts` accounts: its tree
    /// has `2^h` leaves, `h` being the base-two logarithm of `num_accounts`,
    /// rounded up. The first identifier is 1; a tree of a single leaf has
    /// room for no account. The hash of the tree has no parameters of its
    /// own, so `_parameters` is not read.
    pub fn new(num_accounts: usize, _parameters: &Parameters) -> (state: Self)
        requires
            num_accounts <= MAX_ACCOUNTS,
        ensures
            state.wf(),
            is_ceil_log2(num_accounts as nat, state.height()),
            state.leaves() == blank_leaves(pow2(state.height())),
            state.accounts() == Map::<u64, AccountView>::empty(),
            state.room() == pow2(state.height()) - 1,
            state.room() >= num_accounts - 1,
            state.next_id() == (if state.leaves().len() > 1 {
                Some(1u64)
            } else {
                None
            }),
    {
        let height = ceil_log2(num_accounts);
        proof {
            lemma_pow2_max();
            if height > MAX_HEIGHT {
                lemma_pow2_monotone(MAX_HEIGHT as nat, (height - 1) as nat);
            }
        }
        let tree = AccountMerkleTree::blank(height as usize).unwrap();
        let leaf_count = tree.leaf_count();
        let next = if leaf_count > 1 {
            Some(AccountId(1))
        } else {
            None
        };
        let state = State {
            next_available_account: next,
            account_merkle_tree: tree,
            id_to_account_info: HashMap::new(),
            pub_key_to_id: Vec::new(),
        };
        proof {
            tree.lemma_leaf_count();
        }
        state
    }

    /// Return the root of the account Merkle tree.
    pub fn root(&self) -> (root: Root)
        requires
            self.wf(),
        ensures
            root@ == merkle_root(self.leaves()),
    {
        self.account_merkle_tree.root()
    }

    /// The identifier that the next registration will get, if there is room for one.
    pub fn next_available_account(&self) -> (next: Option<AccountId>)
        ensures
            match next {
                Some(id) => self.next_id() == Some(id.0),
                None => self.next_id().is_none(),
            },
    {
        self.next_available_account
    }

    /// The account under `id`, if one is registered.
    pub fn get_account_info(&self, id: AccountId) -> (r: Option<AccountInformation>)
        ensures
            match r {
                Some(info) => self.accounts().contains_key(id.0) && info@ == self.accounts()[id.0],
                None => !self.accounts().contains_key(id.0),
            },
    {
        match self.id_to_account_info.get(&id.0) {
            Some(info) => Some(info.duplicate()),
            None => None,
        }
    }

    /// The inclusion proof of the leaf at the position of `id`, if the tree has that position.
    pub fn account_proof(&self, id: AccountId) -> (r: Option<Path>)
        requires
            self.wf(),
        ensures
            match r {
                Some(path) => {
                    &&& id.0 < self.leaves().len()
                    &&& path.leaf_index == id.0
                    &&& digests_of(path.siblings@) == auth_siblings(self.leaves(), id.0 as int)
                    &&& path.siblings.len() == self.height()
                },
                None => id.0 >= self.leaves().len(),
            },
    {
        proof {
            self.lemma_wf();
        }
        if id.0 >= MAX_ACCOUNTS as u64 {
            return None;
        }
        match self.account_merkle_tree.generate_proof(id.0 as usize) {
            Ok(path) => Some(path),
            Err(_) => None,
        }
    }
}

/// Whether `after` is `before` with one more account: `id`, with the key
/// `public_key` and the nonce 0, its leaf written and the next identifier
/// advanced, or missing once the last position is taken.
pub open spec fn registered(before: &State, after: &State, id: u64, public_key: Seq<u8>) -> bool {
    &&& before.next_id() == Some(id)
    &&& after.height() == before.height()
    &&& after.accounts() == before.accounts().insert(
        id,
        AccountView { public_key: public_key, nonce: 0 },
    )
    &&& after.leaves() == before.leaves().update(
        id as int,
        leaf_digest(account_encoding(public_key, 0)),
    )
    &&& after.next_id() == (if id + 1 < before.leaves().len() {
        Some((id + 1) as u64)
    } else {
        None
    })
}

/// Whether `after` is `before` with the nonce of `sender` advanced by one and
/// the leaf of `sender` rewritten, everything else as it was.
pub open spec fn nonce_advanced(before: &State, after: &State, sender: u64) -> bool {
    let account = before.accounts()[sender];
    let nonce = (account.nonce + 1) as u64;
    &&& before.accounts().contains_key(sender)
    &&& account.nonce < u64::MAX
    &&& after.height() == before.height()
    &&& after.accounts() == before.accounts().insert(
        sender,
        AccountView { public_key: account.public_key, nonce: nonce },
    )
    &&& after.leaves() == before.leaves().update(
        sender as int,
        leaf_digest(account_encoding(account.public_key, nonce)),
    )
    &&& after.next_id() == before.next_id()
}

impl State {
    /// Whether the account under `id` is registered with the key `public_key`.
    pub open spec fn owns(&self, id: u64, public_key: Seq<u8>) -> bool {
        self.accounts().contains_key(id) && self.accounts()[id].public_key == public_key
    }

    /// Create a new account with public key `public_key`. Returns a fresh
    /// account identifier if there is room for a new account, and
    /// `CapacityExceeded` otherwise, leaving the ledger as it is. The nonce of
    /// the new account is 0.
    ///
    /// A key may be registered more than once: each registration makes an
    /// account of its own, and a lookup by key finds the latest one.
    pub fn try_register(&mut self, public_key: AccountPublicKey) -> (r: Result<
        AccountId,
        LedgerError,
    >)
        requires
            old(self).wf(),
        ensures
            final(self).wf(),
            final(self).height() == old(self).height(),
            match r {
                Ok(id) => registered(old(self), final(self), id.0, public_key@),
                Err(e) => {
                    &&& e == LedgerError::CapacityExceeded
                    &&& old(self).next_id().is_none()
                    &&& *final(self) == *old(self)
                },
            },
    {
        let id = match self.next_available_account {
            Some(id) => id,
            None => {
                return Err(LedgerError::CapacityExceeded);
            },
        };
        proof {
            self.lemma_wf();
        }
        let info = AccountInformation { public_key: public_key.duplicate(), nonce: Nonce(0) };
        let bytes = info.to_bytes_le();
        let updated = self.account_merkle_tree.update(id.0 as usize, bytes.as_slice());
        assert(updated.is_ok());
        self.pub_key_to_id.push((public_key, id));
        self.id_to_account_info.insert(id.0, info);
        let leaf_count = self.account_merkle_tree.leaf_count();
        self.next_available_account = if id.0 + 1 < leaf_count as u64 {
            Some(AccountId(id.0 + 1))
        } else {
            None
        };
        proof {
            assert(self.accounts() =~= old(self).accounts().insert(
                id.0,
                AccountView { public_key: public_key@, nonce: 0 },
            ));
        }
        Ok(id)
    }

    /// Create a new account with public key `public_key`. Returns a fresh
    /// account identifier if there is room for a new account, and `None`
    /// otherwise, leaving the ledger as it is. The nonce of the new account
    /// is 0.
    pub fn register(&mut self, public_key: AccountPublicKey) -> (r: Option<AccountId>)
        requires
            old(self).wf(),
        ensures
            final(self).wf(),
            final(self).height() == old(self).height(),
            match r {
                Some(id) => registered(old(self), final(self), id.0, public_key@),
                None => old(self).next_id().is_none() && *final(self) == *old(self),
            },
    {
        match self.try_register(public_key) {
            Ok(id) => Some(id),
            Err(_) => None,
        }
    }

    /// Samples keys and registers these in the ledger.
    pub fn sample_keys_and_register(&mut self, ledger_params: &Parameters, rng: &mut StdRng) -> (r:
        Option<(AccountId, AccountPublicKey, AccountSecretKey)>)
        requires
            old(self).wf(),
        ensures
            final(self).wf(),
            final(self).height() == old(self).height(),
            match r {
                Some((id, public_key, secret_key)) => {
                    &&& secret_key == drawn_secret_key(ledger_params.sig_params, *old(rng))
                    &&& public_key@ == schnorr_public_key(ledger_params.sig_params, secret_key)
                    &&& registered(old(self), final(self), id.0, public_key@)
                },
                None => old(self).next_id().is_none() && *final(self) == *old(self),
            },
            *final(rng) == rng_after_keygen(ledger_params.sig_params, *old(rng)),
    {
        let (public_key, secret_key) = schnorr_keygen(&ledger_params.sig_params, rng).unwrap();
        match self.register(public_key.duplicate()) {
            Some(id) => Some((id, public_key, secret_key)),
            None => None,
        }
    }

    /// The latest account registered with `public_key`, if there is one.
    pub fn id_of_public_key(&self, public_key: &AccountPublicKey) -> (r: Option<AccountId>)
        requires
            self.wf(),
        ensures
            match r {
                Some(id) => {
                    &&& self.owns(id.0, public_key@)
                    &&& forall|other: u64| self.owns(other, public_key@) ==> other <= id.0
                },
                None => forall|other: u64| !self.owns(other, public_key@),
            },
    {
        proof {
            self.lemma_wf();
        }
        let mut k: usize = self.pub_key_to_id.len();
        while k > 0
            invariant
                self.wf(),
                k <= self.pub_key_to_id.len(),
                forall|other: u64| self.owns(other, public_key@) ==> other <= k,
            decreases k,
        {
            k -= 1;
            if self.pub_key_to_id[k].0.same_as(public_key) {
                return Some(self.pub_key_to_id[k].1);
            }
        }
        None
    }

    /// Advance the nonce of `id` by one and rewrite its leaf. Returns
    /// `Some(())` if an account with identifier `id` exists and its nonce can
    /// still grow, and `None` otherwise, leaving the ledger as it is.
    fn increment_nonce(&mut self, id: AccountId) -> (r: Option<()>)
        requires
            old(self).wf(),
        ensures
            final(self).wf(),
            final(self).height() == old(self).height(),
            r.is_some() <==> old(self).accounts().contains_key(id.0) && old(self).accounts()[id.0].nonce
                < u64::MAX,
            r.is_some() ==> nonce_advanced(old(self), final(self), id.0),
            r.is_none() ==> *final(self) == *old(self),
    {
        proof {
            self.lemma_wf();
        }
        let mut info = match self.id_to_account_info.get(&id.0) {
            Some(info) => info.duplicate(),
            None => {
                return None;
            },
        };
        if info.nonce.checked_increment().is_none() {
            return None;
        }
        let bytes = info.to_bytes_le();
        let updated = self.account_merkle_tree.update(id.0 as usize, bytes.as_slice());
        assert(updated.is_ok());
        self.id_to_account_info.insert(id.0, info);
        proof {
            let before = old(self).accounts()[id.0];
            assert(self.accounts() =~= old(self).accounts().insert(
                id.0,
                AccountView { public_key: before.public_key, nonce: (before.nonce + 1) as u64 },
            ));
        }
        Some(())
    }

    /// What applying `tx` answers: what its check answers, and for a valid
    /// transaction `ArithmeticOverflow` where the sender's nonce cannot grow.
    pub open spec fn outcome(&self, pp: &Parameters, tx: &Transaction) -> Result<(), LedgerError> {
        match tx.verdict(pp, self) {
            Ok(()) => if self.accounts()[tx.sender.0].nonce < u64::MAX {
                Ok(())
            } else {
                Err(LedgerError::ArithmeticOverflow)
            },
            Err(e) => Err(e),
        }
    }

    /// Update the state by applying the transaction `tx`, if `tx` is valid and
    /// the sender's nonce can still grow: the nonce advances by one and the
    /// sender's leaf is rewritten. Otherwise the answer names the rule that
    /// `tx` breaks, and the ledger stays as it is. The transaction is checked
    /// in full before anything is changed.
    pub fn try_apply_transaction(&mut self, pp: &Parameters, tx: &Transaction) -> (r: Result<
        (),
        LedgerError,
    >)
        requires
            old(self).wf(),
        ensures
            final(self).wf(),
            final(self).height() == old(self).height(),
            r == old(self).outcome(pp, tx),
            old(self).accounts().contains_key(tx.sender.0) ==> tx.sender_included(old(self)),
            r.is_ok() <==> tx.accepted(pp, old(self)) && old(self).accounts()[tx.sender.0].nonce
                < u64::MAX,
            r.is_ok() ==> nonce_advanced(old(self), final(self), tx.sender.0),
            r.is_err() ==> *final(self) == *old(self),
    {
        match tx.check(pp, self) {
            Ok(()) => match self.increment_nonce(tx.sender) {
                Some(()) => Ok(()),
                None => Err(LedgerError::ArithmeticOverflow),
            },
            Err(e) => Err(e),
        }
    }

    /// Update the state by applying the transaction `tx`, if `tx` is valid and
    /// the sender's nonce can still grow: the nonce advances by one and the
    /// sender's leaf is rewritten. Otherwise the ledger stays as it is.
    pub fn apply_transaction(&mut self, pp: &Parameters, tx: &Transaction) -> (r: Option<()>)
        requires
            old(self).wf(),
        ensures
            final(self).wf(),
            final(self).height() == old(self).height(),
            r.is_some() <==> tx.valid(pp, old(self)) && old(self).accounts()[tx.sender.0].nonce
                < u64::MAX,
            r.is_some() <==> tx.accepted(pp, old(self)) && old(self).accounts()[tx.sender.0].nonce
                < u64::MAX,
            r.is_some() ==> nonce_advanced(old(self), final(self), tx.sender.0),
            r.is_none() ==> *final(self) == *old(self),
    {
        match self.try_apply_transaction(pp, tx) {
            Ok(()) => Some(()),
            Err(_) => None,
        }
    }
}

impl State {
    /// Capacity: the ledger has no identifier left to assign exactly when it has
    /// no room left, which is exactly when every position of the tree from 1
    /// up holds an account.
    pub proof fn lemma_full_when_exhausted(&self)
        requires
            self.wf(),
        ensures
            self.room() >= 0,
            self.next_id().is_none() <==> self.room() == 0,
            self.next_id().is_none() <==> (forall|id: u64|
                1 <= id < self.leaves().len() ==> self.accounts().contains_key(id)),
    {
        self.lemma_wf();
        if let Some(next) = self.next_id() {
            assert(!self.accounts().contains_key(next));
        }
    }
}

/// Capacity: every registration takes one of the places that the ledger has
/// room for. A ledger made for `c` accounts starts with room for
/// `2^h - 1`, `h` being the height of its tree, which is at least `c - 1`;
/// after as many registrations the next one is refused.
pub proof fn lemma_registration_takes_room(
    before: &State,
    after: &State,
    id: u64,
    public_key: Seq<u8>,
)
    requires
        before.wf(),
        after.wf(),
        registered(before, after, id, public_key),
    ensures
        before.room() >= 1,
        after.room() == before.room() - 1,
        id == before.bound(),
{
    before.lemma_wf();
    after.lemma_wf();
}

/// Once the nonce of `sender` has advanced, the proof of the sender's
/// position is accepted against the new root for the account with the new
/// nonce. For the account with the old nonce it is refused, as long as the
/// hash tells the two ways up apart.
pub proof fn lemma_stale_leaf_refused(before: &State, after: &State, sender: u64)
    requires
        before.wf(),
        after.wf(),
        nonce_advanced(before, after, sender),
        ({
            let account = before.accounts()[sender];
            let stale = leaf_digest(account_encoding(account.public_key, account.nonce));
            let fresh = leaf_digest(
                account_encoding(account.public_key, (account.nonce + 1) as u64),
            );
            let siblings = auth_siblings(after.leaves(), sender as int);
            stale != fresh && collision_free(fresh, siblings, stale, siblings, sender as int, true)
        }),
    ensures
        ({
            let account = before.accounts()[sender];
            let siblings = auth_siblings(after.leaves(), sender as int);
            let root = merkle_root(after.leaves());
            &&& path_accepts(
                sender as int,
                siblings,
                root,
                account_encoding(account.public_key, (account.nonce + 1) as u64),
            )
            &&& !path_accepts(
                sender as int,
                siblings,
                root,
                account_encoding(account.public_key, account.nonce),
            )
        }),
{
    let account = before.accounts()[sender];
    let siblings = auth_siblings(after.leaves(), sender as int);
    after.lemma_account_included(sender);
    lemma_tamper_rejected(
        sender as int,
        siblings,
        merkle_root(after.leaves()),
        account_encoding(account.public_key, (account.nonce + 1) as u64),
        siblings,
        account_encoding(account.public_key, account.nonce),
    );
}

/// Nonce monotonicity: once a transaction of `sender` has been applied, a
/// transaction of `sender` with the nonce of the applied one is no longer
/// valid, whatever its signature; one with the next nonce is valid as soon as
/// its signature is the sender's.
pub proof fn lemma_nonce_monotonicity(
    before: &State,
    after: &State,
    parameters: &Parameters,
    applied: &Transaction,
    next: &Transaction,
)
    requires
        before.wf(),
        after.wf(),
        applied.valid(parameters, before),
        nonce_advanced(before, after, applied.sender.0),
        next.sender == applied.sender,
    ensures
        next.nonce == applied.nonce ==> !next.valid(parameters, after),
        next.nonce.0 == applied.nonce.0 + 1 && next.authorized_by(
            parameters.sig_params,
            before.accounts()[applied.sender.0].public_key,
        ) ==> next.valid(parameters, after),
{
    next.lemma_valid_iff_accepted(parameters, after);
}

} // verus!
