//! Account identifiers, nonces and the leaf payload of an account.

use vstd::prelude::*;
use vstd::bytes::{spec_u64_to_le_bytes, u64_to_le_bytes};
use ark_ff::biginteger::BigInteger64;
use ark_ff::BigInteger;
use crate::bytes::{copy_bytes, same_bytes};

verus! {

/// The public key of an account, in its canonical uncompressed encoding.
#[derive(Clone, Debug, PartialEq, Eq, Hash)]
pub struct AccountPublicKey(pub Vec<u8>);

impl View for AccountPublicKey {
    type V = Seq<u8>;

    open spec fn view(&self) -> Seq<u8> {
        self.0@
    }
}

impl AccountPublicKey {
    /// A copy of this key.
    pub fn duplicate(&self) -> (copy: Self)
        ensures
            copy@ == self@,
    {
        AccountPublicKey(copy_bytes(&self.0))
    }

    /// Whether the two keys have the same encoding.
    pub fn same_as(&self, other: &Self) -> (same: bool)
        ensures
            same == (self@ == other@),
    {
        same_bytes(&self.0, &other.0)
    }
}

/// Calls `BigInteger::to_bytes_le` on a one-limb big integer. Trusted: the
/// result is the limb's eight bytes, least significant first.
#[verifier::external_body]
fn bigint64_bytes_le(value: u64) -> (bytes: Vec<u8>)
    ensures
        bytes@ == spec_u64_to_le_bytes(value),
{
    BigInteger64::from(value).to_bytes_le()
}

/// Identifier of an account: positive, and assigned in ascending order from 1.
#[derive(Clone, Copy, Debug, PartialEq, Eq, Structural, Hash, PartialOrd, Ord)]
pub struct AccountId(pub u64);

impl AccountId {
    /// The identifier as eight bytes, least significant first.
    pub fn to_bytes_le(&self) -> (bytes: Vec<u8>)
        ensures
            bytes@ == spec_u64_to_le_bytes(self.0),
    {
        bigint64_bytes_le(self.0)
    }

    /// Advances the identifier by one; at the end of the 64-bit range it
    /// reports the overflow and leaves the identifier as it is.
    pub fn checked_increment(&mut self) -> (r: Option<()>)
        ensures
            old(self).0 < u64::MAX ==> r == Some(()) && final(self).0 == old(self).0 + 1,
            old(self).0 == u64::MAX ==> r.is_none() && *final(self) == *old(self),
    {
        if self.0 < u64::MAX {
            self.0 = self.0 + 1;
            Some(())
        } else {
            None
        }
    }
}

/// The number of transactions applied for an account.
#[derive(Clone, Copy, Debug, PartialEq, Eq, Structural, Hash, PartialOrd, Ord)]
pub struct Nonce(pub u64);

impl Nonce {
    /// The nonce as eight bytes, least significant first.
    pub fn to_bytes_le(&self) -> (bytes: Vec<u8>)
        ensures
            bytes@ == spec_u64_to_le_bytes(self.0),
    {
        u64_to_le_bytes(self.0)
    }

    /// Advances the nonce by one; at the end of the 64-bit range it reports
    /// the overflow and leaves the nonce as it is.
    pub fn checked_increment(&mut self) -> (r: Option<()>)
        ensures
            old(self).0 < u64::MAX ==> r == Some(()) && final(self).0 == old(self).0 + 1,
            old(self).0 == u64::MAX ==> r.is_none() && *final(self) == *old(self),
    {
        if self.0 < u64::MAX {
            self.0 = self.0 + 1;
            Some(())
        } else {
            None
        }
    }
}

/// What the ledger holds of an account, and what its Merkle leaf commits to.
#[derive(Clone, Debug, PartialEq, Eq, Hash)]
pub struct AccountInformation {
    pub public_key: AccountPublicKey,
    pub nonce: Nonce,
}

/// The canonical encoding of an account: the key's encoding, then the nonce
/// as eight little-endian bytes.
pub open spec fn account_encoding(public_key: Seq<u8>, nonce: u64) -> Seq<u8> {
    public_key + spec_u64_to_le_bytes(nonce)
}

impl AccountInformation {
    /// The canonical encoding of this account.
    pub open spec fn encoding(&self) -> Seq<u8> {
        account_encoding(self.public_key@, self.nonce.0)
    }

    /// The canonical encoding of this account: the leaf payload.
    pub fn to_bytes_le(&self) -> (bytes: Vec<u8>)
        ensures
            bytes@ == self.encoding(),
    {
        let mut bytes = copy_bytes(&self.public_key.0);
        let mut tail = self.nonce.to_bytes_le();
        bytes.append(&mut tail);
        bytes
    }

    /// A copy of this account.
    pub fn duplicate(&self) -> (copy: Self)
        ensures
            copy.public_key@ == self.public_key@,
            copy.nonce == self.nonce,
    {
        AccountInformation { public_key: self.public_key.duplicate(), nonce: self.nonce }
    }

    /// Whether the two accounts agree in both fields.
    pub fn same_as(&self, other: &Self) -> (same: bool)
        ensures
            same == (self.public_key@ == other.public_key@ && self.nonce == other.nonce),
    {
        self.public_key.same_as(&other.public_key) && self.nonce.0 == other.nonce.0
    }
}

} // verus!
