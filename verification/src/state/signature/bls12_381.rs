//! The pairing-based signature scheme over BLS12-381.
//!
//! Keys and signatures are held in their canonical encodings: a public key is
//! a compressed point of the second group, a signature a compressed point of
//! the first, a secret key a scalar of 256 bits.

use vstd::prelude::*;
use crate::bytes::same_bytes;
use crate::state::signature::encoding::{
    hex_bytes, hex_decode, hex_encode, hex_string, lemma_hex_round_trip,
};
use crate::state::signature::group::{
    draw_scalar, drawn_scalar, g1_decodes, g1_identity, g1_scalar_mul, g2_decodes, g2_generator,
    g2_generator_encoding, g2_identity, g2_scalar_mul, identity_encoding, is_g1_encoding,
    is_g2_encoding, is_neutral, mul_g1, mul_g2, neutral, pair, pairing_value, rng_from_seed,
    seeded_rng, G1_LEN, G2_LEN, SCALAR_LEN,
};
use crate::state::signature::hash::{blake2s_digest, curve_point, hash_to_curve};
use crate::state::signature::{SignatureError, SignatureScheme};

verus! {

/// A value that can be written as hexadecimal text.
pub trait Parser {
    fn get_string(&self) -> String;
}

/// The pairing-based scheme.
pub struct Bls12381 {}

/// The parameters of the scheme: the encoded generator of the second group,
/// and the seed that fixes the hash-to-curve function and the key.
#[derive(Debug, Clone)]
pub struct Parameters {
    pub generator: Vec<u8>,
    pub seed: [u8; 32],
}

/// A public key: the encoding of a point of the second group.
#[derive(Debug, Hash, Clone, Eq, PartialEq)]
pub struct PublicKey(pub Vec<u8>);

/// A secret key: the encoding of a scalar.
#[derive(Clone, Debug)]
pub struct SecretKey(pub Vec<u8>);

/// A signature: the encoding of a point of the first group.
#[derive(Clone, Debug)]
pub struct Signature(pub Vec<u8>);

/// The encoding of the scalar zero.
pub open spec fn zero_scalar() -> Seq<u8> {
    Seq::new(SCALAR_LEN as nat, |i: int| 0u8)
}

/// The secret key that a hexadecimal text stands for: its bytes where there
/// are `SCALAR_LEN` of them, else zero.
pub open spec fn loaded_scalar(text: Seq<char>) -> Seq<u8> {
    match hex_bytes(text) {
        Some(bytes) => if bytes.len() == SCALAR_LEN {
            bytes
        } else {
            zero_scalar()
        },
        None => zero_scalar(),
    }
}

/// The signature that a hexadecimal text stands for: its bytes where they
/// encode a point of the first group, else the neutral element.
pub open spec fn loaded_g1(text: Seq<char>) -> Seq<u8> {
    match hex_bytes(text) {
        Some(bytes) => if bytes.len() == G1_LEN && g1_decodes(bytes) {
            bytes
        } else {
            identity_encoding(G1_LEN as nat)
        },
        None => identity_encoding(G1_LEN as nat),
    }
}

/// The public key that a hexadecimal text stands for: its bytes where they
/// encode a point of the second group, else the neutral element.
pub open spec fn loaded_g2(text: Seq<char>) -> Seq<u8> {
    match hex_bytes(text) {
        Some(bytes) => if bytes.len() == G2_LEN && g2_decodes(bytes) {
            bytes
        } else {
            identity_encoding(G2_LEN as nat)
        },
        None => identity_encoding(G2_LEN as nat),
    }
}

/// Whether the pairing equation holds of the encoded signature, the message
/// and the encoded public key: the pairing of the signature with the
/// generator of the second group equals the pairing of the message's point
/// with the public key.
pub open spec fn bls_accepts(
    seed: Seq<u8>,
    public_key: Seq<u8>,
    message: Seq<u8>,
    signature: Seq<u8>,
) -> bool {
    pairing_value(signature, g2_generator_encoding()) == pairing_value(
        curve_point(seed, blake2s_digest(message)),
        public_key,
    )
}

/// What verifying answers for a well-formed key and signature: neither is
/// the neutral element, and the pairing equation holds. The zero values that
/// a malformed text is read as are therefore never accepted.
pub open spec fn bls_verdict(
    seed: Seq<u8>,
    public_key: Seq<u8>,
    message: Seq<u8>,
    signature: Seq<u8>,
) -> bool {
    &&& !neutral(public_key)
    &&& !neutral(signature)
    &&& bls_accepts(seed, public_key, message, signature)
}

impl View for PublicKey {
    type V = Seq<u8>;

    open spec fn view(&self) -> Seq<u8> {
        self.0@
    }
}

impl View for SecretKey {
    type V = Seq<u8>;

    open spec fn view(&self) -> Seq<u8> {
        self.0@
    }
}

impl View for Signature {
    type V = Seq<u8>;

    open spec fn view(&self) -> Seq<u8> {
        self.0@
    }
}

impl PublicKey {
    /// The key holds the encoding of a point of the second group.
    pub open spec fn wf(&self) -> bool {
        self@.len() == G2_LEN && g2_decodes(self@)
    }
}

impl SecretKey {
    /// The key holds the encoding of a scalar.
    pub open spec fn wf(&self) -> bool {
        self@.len() == SCALAR_LEN
    }
}

impl Signature {
    /// The signature holds the encoding of a point of the first group.
    pub open spec fn wf(&self) -> bool {
        self@.len() == G1_LEN && g1_decodes(self@)
    }
}

impl Parameters {
    /// The generator is the encoding of a point of the second group.
    pub open spec fn wf(&self) -> bool {
        self.generator@.len() == G2_LEN && g2_decodes(self.generator@)
    }
}

impl Default for PublicKey {
    /// The zero value of a public key: the neutral element.
    fn default() -> (key: Self)
        ensures
            key@ == identity_encoding(G2_LEN as nat),
            key.wf(),
    {
        PublicKey(g2_identity())
    }
}

impl Parser for PublicKey {
    fn get_string(&self) -> (text: String)
        ensures
            text@ == hex_string(self@),
    {
        hex_encode(self.0.as_slice())
    }
}

impl Parser for SecretKey {
    fn get_string(&self) -> (text: String)
        ensures
            text@ == hex_string(self@),
    {
        hex_encode(self.0.as_slice())
    }
}

impl Parser for Signature {
    fn get_string(&self) -> (text: String)
        ensures
            text@ == hex_string(self@),
    {
        hex_encode(self.0.as_slice())
    }
}

fn zero_scalar_bytes() -> (bytes: Vec<u8>)
    ensures
        bytes@ == zero_scalar(),
{
    let mut bytes: Vec<u8> = Vec::new();
    let mut i: usize = 0;
    while i < SCALAR_LEN
        invariant
            i <= SCALAR_LEN,
            bytes@.len() == i,
            forall|j: int| 0 <= j < i ==> bytes@[j] == 0u8,
        decreases SCALAR_LEN - i,
    {
        bytes.push(0u8);
        i += 1;
    }
    bytes
}

impl SignatureScheme for Bls12381 {
    type Parameters = Parameters;

    type PublicKey = PublicKey;

    type SecretKey = SecretKey;

    type Signature = Signature;

    /// The parameters for a seed: the generator of the second group, and the seed.
    fn setup(seed: [u8; 32]) -> (r: Result<Parameters, SignatureError>)
        ensures
            r.is_ok(),
            r.unwrap().seed == seed,
            r.unwrap().generator@ == g2_generator_encoding(),
            r.unwrap().wf(),
    {
        let generator = g2_generator();
        Ok(Parameters { generator, seed })
    }

    /// The key pair of the parameters: the secret key is the scalar that a
    /// random source set up from the seed yields first, the public key the
    /// generator's multiple by it.
    fn keygen(parameters: &Parameters) -> (r: Result<(PublicKey, SecretKey), SignatureError>)
        ensures
            r.is_ok(),
            r.unwrap().1@ == drawn_scalar(seeded_rng(parameters.seed@)),
            r.unwrap().0@ == g2_scalar_mul(parameters.generator@, r.unwrap().1@),
            r.unwrap().0.wf(),
            r.unwrap().1.wf(),
    {
        let mut rng = rng_from_seed(parameters.seed);
        let sk = draw_scalar(&mut rng);
        let pk = mul_g2(parameters.generator.as_slice(), sk.as_slice());
        Ok((PublicKey(pk), SecretKey(sk)))
    }

    /// Reads a secret key from its hexadecimal text; a malformed text gives zero.
    fn load_secret_key(secret_key: String) -> (key: SecretKey)
        ensures
            key@ == loaded_scalar(secret_key@),
            key.wf(),
    {
        match hex_decode(secret_key.as_str()) {
            Some(bytes) => {
                if bytes.len() == SCALAR_LEN {
                    SecretKey(bytes)
                } else {
                    SecretKey(zero_scalar_bytes())
                }
            },
            None => SecretKey(zero_scalar_bytes()),
        }
    }

    /// Reads a public key from its hexadecimal text; a malformed text gives
    /// the neutral element.
    fn load_public_key(public_key: String) -> (key: PublicKey)
        ensures
            key@ == loaded_g2(public_key@),
            key.wf(),
    {
        match hex_decode(public_key.as_str()) {
            Some(bytes) => {
                if bytes.len() == G2_LEN && is_g2_encoding(bytes.as_slice()) {
                    PublicKey(bytes)
                } else {
                    PublicKey(g2_identity())
                }
            },
            None => PublicKey(g2_identity()),
        }
    }

    /// Reads a signature from its hexadecimal text; a malformed text gives the
    /// neutral element.
    fn load_signature(signature: String) -> (sig: Signature)
        ensures
            sig@ == loaded_g1(signature@),
            sig.wf(),
    {
        match hex_decode(signature.as_str()) {
            Some(bytes) => {
                if bytes.len() == G1_LEN && is_g1_encoding(bytes.as_slice()) {
                    Signature(bytes)
                } else {
                    Signature(g1_identity())
                }
            },
            None => Signature(g1_identity()),
        }
    }

    /// Signs a message: the point that the message is hashed to, multiplied
    /// by the secret key. The pairing equation holds of the signature, the
    /// message and the public key that belongs to the secret key: the
    /// generator's multiple by it.
    fn sign(parameters: &Parameters, sk: &SecretKey, message: &[u8]) -> (r: Result<
        Signature,
        SignatureError,
    >)
        ensures
            match r {
                Ok(signature) => {
                    &&& sk.wf()
                    &&& signature@ == g1_scalar_mul(
                        curve_point(parameters.seed@, blake2s_digest(message@)),
                        sk@,
                    )
                    &&& signature.wf()
                    &&& bls_accepts(
                        parameters.seed@,
                        g2_scalar_mul(g2_generator_encoding(), sk@),
                        message@,
                        signature@,
                    )
                },
                Err(e) => !sk.wf() && e == SignatureError::MalformedKeyOrSignature,
            },
    {
        if sk.0.len() != SCALAR_LEN {
            return Err(SignatureError::MalformedKeyOrSignature);
        }
        let (_, h) = hash_to_curve(parameters.seed, message);
        let e = mul_g1(h.as_slice(), sk.0.as_slice());
        Ok(Signature(e))
    }

    /// Verifies a signature. A key or a signature that is the neutral element
    /// is refused; any other is accepted exactly when its pairing with the
    /// generator of the second group equals the pairing of the message's
    /// point with the public key. The generator is the fixed one, whatever
    /// `parameters.generator` holds; of the parameters only the seed is read.
    fn verify(
        parameters: &Parameters,
        pk: &PublicKey,
        message: &[u8],
        signature: &Signature,
    ) -> (r: Result<bool, SignatureError>)
        ensures
            match r {
                Ok(accepted) => {
                    &&& pk.wf() && signature.wf()
                    &&& accepted == bls_verdict(parameters.seed@, pk@, message@, signature@)
                },
                Err(e) => !(pk.wf() && signature.wf()) && e
                    == SignatureError::MalformedKeyOrSignature,
            },
    {
        if pk.0.len() != G2_LEN || signature.0.len() != G1_LEN {
            return Err(SignatureError::MalformedKeyOrSignature);
        }
        if !is_g2_encoding(pk.0.as_slice()) || !is_g1_encoding(signature.0.as_slice()) {
            return Err(SignatureError::MalformedKeyOrSignature);
        }
        if is_neutral(&pk.0) || is_neutral(&signature.0) {
            return Ok(false);
        }
        let generator = g2_generator();
        let a = pair(signature.0.as_slice(), generator.as_slice());
        let (_, h) = hash_to_curve(parameters.seed, message);
        let b = pair(h.as_slice(), pk.0.as_slice());
        Ok(same_bytes(&a, &b))
    }
}

/// Fail closed: the zero value of a key or of a signature is never accepted,
/// whatever the message and whatever it is paired with.
pub proof fn lemma_zero_values_refused(
    seed: Seq<u8>,
    message: Seq<u8>,
    public_key: Seq<u8>,
    signature: Seq<u8>,
)
    ensures
        !bls_verdict(seed, identity_encoding(G2_LEN as nat), message, signature),
        !bls_verdict(seed, public_key, message, identity_encoding(G1_LEN as nat)),
{
    assert(neutral(identity_encoding(G2_LEN as nat)));
    assert(neutral(identity_encoding(G1_LEN as nat)));
}

/// Fail closed: a text that is not the hexadecimal text of a well-formed key
/// or signature is read as a value that is never accepted.
pub proof fn lemma_malformed_text_refused(
    text: Seq<char>,
    seed: Seq<u8>,
    message: Seq<u8>,
    public_key: Seq<u8>,
    signature: Seq<u8>,
)
    ensures
        hex_bytes(text) != Some(loaded_g2(text)) ==> !bls_verdict(
            seed,
            loaded_g2(text),
            message,
            signature,
        ),
        hex_bytes(text) != Some(loaded_g1(text)) ==> !bls_verdict(
            seed,
            public_key,
            message,
            loaded_g1(text),
        ),
{
    lemma_zero_values_refused(seed, message, public_key, signature);
}

/// Serialization round trip: reading the hexadecimal text of a well-formed
/// secret key gives the key back.
pub proof fn lemma_secret_key_round_trip(key: SecretKey)
    requires
        key.wf(),
    ensures
        loaded_scalar(hex_string(key@)) == key@,
{
    lemma_hex_round_trip(key@);
}

/// Serialization round trip: reading the hexadecimal text of a well-formed
/// public key gives the key back.
pub proof fn lemma_public_key_round_trip(key: PublicKey)
    requires
        key.wf(),
    ensures
        loaded_g2(hex_string(key@)) == key@,
{
    lemma_hex_round_trip(key@);
}

/// Serialization round trip: reading the hexadecimal text of a well-formed
/// signature gives the signature back.
pub proof fn lemma_signature_round_trip(signature: Signature)
    requires
        signature.wf(),
    ensures
        loaded_g1(hex_string(signature@)) == signature@,
{
    lemma_hex_round_trip(signature@);
}

} // verus!
