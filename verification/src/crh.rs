//! The hash primitives under the Merkle commitment: SHA-256 as a leaf hash and
//! as a two-to-one compression function.

use vstd::prelude::*;
use vstd::bytes::spec_u64_to_le_bytes;
use ark_crypto_primitives::crh::sha256::Sha256;
use ark_crypto_primitives::crh::{CRHScheme, TwoToOneCRHScheme};
use ark_crypto_primitives::merkle_tree::{ByteDigestConverter, DigestConverter};

verus! {

/// The digest of a leaf's bytes under the leaf hash.
pub uninterp spec fn leaf_digest(leaf: Seq<u8>) -> Seq<u8>;

/// The digest of a left and a right input under the two-to-one hash.
pub uninterp spec fn two_to_one_digest(left: Seq<u8>, right: Seq<u8>) -> Seq<u8>;

/// The bytes that stand for a leaf digest when it enters the two-to-one hash:
/// its length as eight little-endian bytes, then the digest itself.
pub open spec fn digest_input(digest: Seq<u8>) -> Seq<u8> {
    spec_u64_to_le_bytes(digest.len() as u64) + digest
}

/// Calls `CRHScheme::evaluate` of `Sha256`. Trusted: the call succeeds (the
/// SHA-256 scheme has no failing path) and its result is what `leaf_digest`
/// names for these bytes.
#[verifier::external_body]
pub(crate) fn hash_leaf(leaf: &[u8]) -> (r: Option<Vec<u8>>)
    ensures
        r.is_some(),
        r.unwrap()@ == leaf_digest(leaf@),
{
    <Sha256 as CRHScheme>::evaluate(&(), leaf).ok()
}

/// Calls `TwoToOneCRHScheme::evaluate` of `Sha256`. Trusted: the call succeeds
/// and its result is what `two_to_one_digest` names for the two inputs.
#[verifier::external_body]
pub(crate) fn hash_two_to_one(left: &[u8], right: &[u8]) -> (r: Option<Vec<u8>>)
    ensures
        r.is_some(),
        r.unwrap()@ == two_to_one_digest(left@, right@),
{
    <Sha256 as TwoToOneCRHScheme>::evaluate(&(), left, right).ok()
}

/// Calls `DigestConverter::convert` of `ByteDigestConverter`, which writes the
/// digest in its canonical uncompressed form. Trusted: for a byte vector that
/// form is the length as a little-endian `u64` followed by the bytes, and
/// writing into a vector does not fail.
#[verifier::external_body]
pub(crate) fn convert_digest(digest: Vec<u8>) -> (r: Option<Vec<u8>>)
    ensures
        r.is_some(),
        r.unwrap()@ == digest_input(digest@),
{
    <ByteDigestConverter<Vec<u8>> as DigestConverter<Vec<u8>, [u8]>>::convert(digest).ok()
}

} // verus!
