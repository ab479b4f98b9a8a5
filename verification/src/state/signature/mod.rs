//! The signature scheme of the ledger as a capability, and its pairing-based
//! variant.

use vstd::prelude::*;

pub mod bls12_381;
pub mod encoding;
pub mod group;
pub mod hash;

pub use self::bls12_381::{Parser, PublicKey, SecretKey, Signature};

verus! {

/// Why a signing or verifying operation was refused.
#[derive(Clone, Copy, Debug, PartialEq, Eq, Structural)]
pub enum SignatureError {
    /// A key or a signature does not hold the encoding of a value of its kind.
    MalformedKeyOrSignature,
}

/// What a signature scheme offers: parameters from a seed, keys, signing and
/// verifying, and keys and signatures read back from their hexadecimal text.
pub trait SignatureScheme {
    type Parameters;

    type PublicKey: Parser + Clone;

    type SecretKey: Parser + Clone;

    type Signature: Parser + Clone;

    fn setup(seed: [u8; 32]) -> Result<Self::Parameters, SignatureError>;

    fn keygen(parameters: &Self::Parameters) -> Result<
        (Self::PublicKey, Self::SecretKey),
        SignatureError,
    >;

    fn load_secret_key(secret_key: String) -> Self::SecretKey;

    fn load_public_key(public_key: String) -> Self::PublicKey;

    fn load_signature(signature: String) -> Self::Signature;

    fn sign(parameters: &Self::Parameters, sk: &Self::SecretKey, message: &[u8]) -> Result<
        Self::Signature,
        SignatureError,
    >;

    fn verify(
        parameters: &Self::Parameters,
        pk: &Self::PublicKey,
        message: &[u8],
        signature: &Self::Signature,
    ) -> Result<bool, SignatureError>;
}

} // verus!
