//! The discrete-log signature scheme of the ledger: Schnorr signatures over
//! the JubJub curve with BLAKE2s as the challenge hash.

use vstd::prelude::*;
use ark_crypto_primitives::signature::schnorr;
use ark_crypto_primitives::signature::SignatureScheme;
use ark_ed_on_bls12_381::{EdwardsAffine, EdwardsProjective, Fr};
use ark_serialize::{CanonicalDeserialize, CanonicalSerialize};
use blake2::Blake2s256;
use rand::rngs::StdRng;
use crate::state::account::AccountPublicKey;

verus! {

/// The standard random source of `rand`, carried as an opaque value.
#[verifier::external_type_specification]
#[verifier::external_body]
pub struct ExStdRng(StdRng);

/// The public parameters of the scheme: a generator of the group and a salt.
/// They hold `schnorr::Parameters`, which is carried as an opaque value.
#[verifier::external_body]
pub struct SignatureParameters {
    inner: schnorr::Parameters<EdwardsProjective, Blake2s256>,
}

/// The secret key of an account. It holds `schnorr::SecretKey`, which is
/// carried as an opaque value.
#[verifier::external_body]
pub struct AccountSecretKey {
    inner: schnorr::SecretKey<EdwardsProjective>,
}

/// The parameters that the scheme sets up from a random source in a given state.
pub uninterp spec fn setup_parameters(rng: StdRng) -> SignatureParameters;

/// The random source after the scheme has set up its parameters from it.
pub uninterp spec fn rng_after_setup(rng: StdRng) -> StdRng;

/// The secret key that the scheme draws from a random source in a given state.
pub uninterp spec fn drawn_secret_key(
    parameters: SignatureParameters,
    rng: StdRng,
) -> AccountSecretKey;

/// The random source after the scheme has drawn a key pair from it.
pub uninterp spec fn rng_after_keygen(parameters: SignatureParameters, rng: StdRng) -> StdRng;

/// The encoded signature that the scheme makes of a message with a secret
/// key and a random source in a given state.
pub uninterp spec fn schnorr_signature(
    parameters: SignatureParameters,
    secret_key: AccountSecretKey,
    message: Seq<u8>,
    rng: StdRng,
) -> Seq<u8>;

/// The random source after the scheme has made a signature with it.
pub uninterp spec fn rng_after_sign(
    parameters: SignatureParameters,
    secret_key: AccountSecretKey,
    message: Seq<u8>,
    rng: StdRng,
) -> StdRng;

/// The encoding of the public key that belongs to a secret key under given parameters.
pub uninterp spec fn schnorr_public_key(
    parameters: SignatureParameters,
    secret_key: AccountSecretKey,
) -> Seq<u8>;

/// Whether the scheme accepts the encoded signature for the message under the encoded public key.
pub uninterp spec fn schnorr_accepts(
    parameters: SignatureParameters,
    public_key: Seq<u8>,
    message: Seq<u8>,
    signature: Seq<u8>,
) -> bool;

/// Calls `Clone::clone` of `schnorr::Parameters`. Trusted: the copy equals
/// the parameters.
#[verifier::external_body]
pub(crate) fn copy_parameters(parameters: &SignatureParameters) -> (copy: SignatureParameters)
    ensures
        copy == *parameters,
{
    SignatureParameters { inner: parameters.inner.clone() }
}

/// Calls `SignatureScheme::setup` of `Schnorr`. Trusted: the call succeeds,
/// and the parameters and the state the random source is left in are
/// functions of the state it was in.
#[verifier::external_body]
pub(crate) fn schnorr_setup(rng: &mut StdRng) -> (r: Option<SignatureParameters>)
    ensures
        r.is_some(),
        r.unwrap() == setup_parameters(*old(rng)),
        *final(rng) == rng_after_setup(*old(rng)),
{
    let inner = schnorr::Schnorr::<EdwardsProjective, Blake2s256>::setup(rng).ok()?;
    Some(SignatureParameters { inner })
}

/// Calls `SignatureScheme::keygen` of `Schnorr` and writes the public key in
/// its uncompressed canonical form. Trusted: the call succeeds; the secret
/// key and the state the random source is left in are functions of the
/// parameters and the state it was in; and the bytes are what
/// `schnorr_public_key` names for these parameters and that secret key.
#[verifier::external_body]
pub(crate) fn schnorr_keygen(parameters: &SignatureParameters, rng: &mut StdRng) -> (r: Option<
    (AccountPublicKey, AccountSecretKey),
>)
    ensures
        r.is_some(),
        r.unwrap().1 == drawn_secret_key(*parameters, *old(rng)),
        r.unwrap().0@ == schnorr_public_key(*parameters, r.unwrap().1),
        *final(rng) == rng_after_keygen(*parameters, *old(rng)),
{
    let keys = schnorr::Schnorr::<EdwardsProjective, Blake2s256>::keygen(&parameters.inner, rng);
    let (pk, inner) = keys.ok()?;
    let mut bytes = Vec::new();
    pk.serialize_uncompressed(&mut bytes).ok()?;
    Some((AccountPublicKey(bytes), AccountSecretKey { inner }))
}

/// Calls `SignatureScheme::sign` of `Schnorr` and writes the signature as its
/// response followed by its challenge. Trusted: the call succeeds; the bytes
/// and the state the random source is left in are functions of the
/// arguments; and, whatever the random source gave, the scheme accepts the
/// signature for the same message under the public key of the signing secret
/// key: verifying recomputes the commitment that signing hashed.
#[verifier::external_body]
pub(crate) fn schnorr_sign(
    parameters: &SignatureParameters,
    secret_key: &AccountSecretKey,
    message: &[u8],
    rng: &mut StdRng,
) -> (r: Option<Vec<u8>>)
    ensures
        r.is_some(),
        r.unwrap()@ == schnorr_signature(*parameters, *secret_key, message@, *old(rng)),
        schnorr_accepts(
            *parameters,
            schnorr_public_key(*parameters, *secret_key),
            message@,
            r.unwrap()@,
        ),
        *final(rng) == rng_after_sign(*parameters, *secret_key, message@, *old(rng)),
{
    let signature = schnorr::Schnorr::<EdwardsProjective, Blake2s256>::sign(
        &parameters.inner,
        &secret_key.inner,
        message,
        rng,
    ).ok()?;
    let mut bytes = Vec::new();
    signature.prover_response.serialize_compressed(&mut bytes).ok()?;
    signature.verifier_challenge.serialize_compressed(&mut bytes).ok()?;
    Some(bytes)
}

/// Reads the public key and the signature from their encodings and calls
/// `SignatureScheme::verify` of `Schnorr`. Trusted: the answer is what
/// `schnorr_accepts` names for these values; an encoding that cannot be read
/// is not accepted.
#[verifier::external_body]
pub(crate) fn schnorr_verify(
    parameters: &SignatureParameters,
    public_key: &[u8],
    message: &[u8],
    signature: &[u8],
) -> (ok: bool)
    ensures
        ok == schnorr_accepts(*parameters, public_key@, message@, signature@),
{
    let pk = EdwardsAffine::deserialize_uncompressed(public_key);
    let parts = <(Fr, Fr)>::deserialize_compressed(signature);
    match (pk, parts) {
        (Ok(pk), Ok((prover_response, verifier_challenge))) => {
            let signature = schnorr::Signature { prover_response, verifier_challenge };
            schnorr::Schnorr::<EdwardsProjective, Blake2s256>::verify(
                &parameters.inner,
                &pk,
                message,
                &signature,
            ).unwrap_or(false)
        },
        _ => false,
    }
}

} // verus!
