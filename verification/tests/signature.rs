use ark_bls12_381::{Bls12_381, Fr, G1Affine, G1Projective, G2Affine};
use ark_crypto_primitives::crh::pedersen::{Window, CRH};
use ark_crypto_primitives::crh::CRHScheme;
use ark_ec::pairing::Pairing;
use ark_ec::{AffineRepr, CurveGroup};
use ark_ff::{BigInteger256, PrimeField, UniformRand};
use ark_serialize::{CanonicalDeserialize, CanonicalSerialize};
use identity::state::signature::bls12_381::{Bls12381, Parameters};
use identity::state::signature::hash::hash_to_curve;
use identity::state::signature::{
    Parser, PublicKey, SecretKey, Signature, SignatureError, SignatureScheme,
};
use rand::SeedableRng;
use rand_chacha::ChaCha20Rng;

const SEED: [u8; 32] = [1; 32];

fn sign_and_verify<S: SignatureScheme>(message: &[u8]) {
    let parameters = S::setup([
        1, 1, 1, 1, 1, 1, 1, 1, 1, 1, 1, 1, 1, 1, 1, 1, 1, 1, 1, 1, 1, 1, 1, 1, 1, 1, 1, 1, 1, 1,
        1, 1,
    ])
    .unwrap();

    let (pk, sk) = S::keygen(&parameters).unwrap();

    // reload secret_key from String
    let secret_key_string = sk.get_string();

    let loaded_secret_key = S::load_secret_key(secret_key_string);

    let sig = S::sign(&parameters, &loaded_secret_key, message).unwrap();

    println!("public key {:?}", pk.get_string());
    println!("secret key {:?}", sk.get_string());
    println!("signature {:?}", sig.get_string());

    // reload signature from String
    let signature_string = sig.get_string();

    let loaded_signature = S::load_signature(signature_string);

    // reload public_key from String
    let public_key_string = pk.get_string();

    let loaded_publickey = S::load_public_key(public_key_string);

    assert!(S::verify(&parameters, &loaded_publickey, message, &loaded_signature).unwrap());
}

fn failed_verification<S: SignatureScheme>(message: &[u8], bad_message: &[u8]) {
    let parameters = S::setup([
        1, 1, 1, 1, 1, 1, 1, 1, 1, 1, 1, 1, 1, 1, 1, 1, 1, 1, 1, 1, 1, 1, 1, 1, 1, 1, 1, 1, 1, 1,
        1, 1,
    ])
    .unwrap();
    let (pk, sk) = S::keygen(&parameters).unwrap();
    let sig = S::sign(&parameters, &sk, message).unwrap();
    assert!(!S::verify(&parameters, &pk, bad_message, &sig).unwrap());
}

#[test]
fn test_bls12381_signature() {
    let message = "Hi, I am a Schnorr signature!";
    sign_and_verify::<Bls12381>(message.as_bytes());
    failed_verification::<Bls12381>(message.as_bytes(), "Bad message".as_bytes());
}

#[derive(Clone)]
struct OneBitWindow;

impl Window for OneBitWindow {
    const WINDOW_SIZE: usize = 1;
    const NUM_WINDOWS: usize = 256;
}

#[test]
fn hash_to_curve_is_the_pedersen_hash_of_the_blake2s_digest() {
    for message in [&b""[..], &b"abc"[..], &b"Hi, I am a Schnorr signature!"[..]] {
        let (digest, point) = hash_to_curve(SEED, message);
        let expected_digest = blake2s_simd::blake2s(message);
        assert_eq!(digest, expected_digest.as_bytes().to_vec());
        let mut rng = ChaCha20Rng::from_seed(SEED);
        let parameters = CRH::<G1Projective, OneBitWindow>::setup(&mut rng).unwrap();
        let expected: G1Affine =
            CRH::<G1Projective, OneBitWindow>::evaluate(&parameters, expected_digest.as_bytes())
                .unwrap();
        let mut bytes = Vec::new();
        expected.serialize_compressed(&mut bytes).unwrap();
        assert_eq!(point, bytes);
        assert_eq!(point.len(), 48);
    }
}

#[test]
fn hash_to_curve_depends_on_seed_and_message_alone() {
    let first = hash_to_curve(SEED, b"message");
    let again = hash_to_curve(SEED, b"message");
    assert_eq!(first, again);
    let other_message = hash_to_curve(SEED, b"messagf");
    assert_ne!(first.0, other_message.0);
    assert_ne!(first.1, other_message.1);
    let other_seed = hash_to_curve([2; 32], b"message");
    assert_eq!(first.0, other_seed.0);
    assert_ne!(first.1, other_seed.1);
}

#[test]
fn setup_gives_the_generator_of_the_second_group() {
    let parameters = Bls12381::setup(SEED).unwrap();
    let mut bytes = Vec::new();
    G2Affine::generator().serialize_compressed(&mut bytes).unwrap();
    assert_eq!(parameters.generator, bytes);
    assert_eq!(parameters.generator.len(), 96);
    assert_eq!(parameters.generator[..4], [0x93u8, 0xe0, 0x2b, 0x60]);
    assert_eq!(parameters.generator[92..], [0xc1u8, 0x21, 0xbd, 0xb8]);
    assert_eq!(parameters.seed, SEED);
}

#[test]
fn keygen_is_fixed_by_the_seed() {
    let parameters = Bls12381::setup(SEED).unwrap();
    let (pk, sk) = Bls12381::keygen(&parameters).unwrap();
    let (pk_again, sk_again) = Bls12381::keygen(&parameters).unwrap();
    assert_eq!(pk, pk_again);
    assert_eq!(sk.0, sk_again.0);
    assert_eq!(pk.0.len(), 96);
    assert_eq!(sk.0.len(), 32);
    let other = Bls12381::setup([7; 32]).unwrap();
    let (other_pk, other_sk) = Bls12381::keygen(&other).unwrap();
    assert_ne!(pk, other_pk);
    assert_ne!(sk.0, other_sk.0);
}

#[test]
fn signature_of_one_key_fails_under_another() {
    let parameters = Bls12381::setup(SEED).unwrap();
    let (pk, sk) = Bls12381::keygen(&parameters).unwrap();
    let other = Bls12381::setup([7; 32]).unwrap();
    let (other_pk, other_sk) = Bls12381::keygen(&other).unwrap();
    let message = b"pay to the bearer";
    let sig = Bls12381::sign(&parameters, &sk, message).unwrap();
    assert_eq!(sig.0.len(), 48);
    assert!(Bls12381::verify(&parameters, &pk, message, &sig).unwrap());
    assert!(!Bls12381::verify(&parameters, &other_pk, message, &sig).unwrap());
    let forged = Bls12381::sign(&parameters, &other_sk, message).unwrap();
    assert!(!Bls12381::verify(&parameters, &pk, message, &forged).unwrap());
    assert!(Bls12381::verify(&parameters, &other_pk, message, &forged).unwrap());
    assert!(!Bls12381::verify(&parameters, &pk, b"pay to the bearer!", &sig).unwrap());
}

#[test]
fn keys_and_signatures_round_trip_through_their_text() {
    let parameters = Bls12381::setup(SEED).unwrap();
    let (pk, sk) = Bls12381::keygen(&parameters).unwrap();
    let sig = Bls12381::sign(&parameters, &sk, b"round trip").unwrap();
    assert_eq!(pk.get_string().len(), 192);
    assert_eq!(sk.get_string().len(), 64);
    assert_eq!(sig.get_string().len(), 96);
    assert_eq!(Bls12381::load_public_key(pk.get_string()), pk);
    assert_eq!(Bls12381::load_secret_key(sk.get_string()).0, sk.0);
    assert_eq!(Bls12381::load_signature(sig.get_string()).0, sig.0);
    assert_eq!(Bls12381::load_public_key(pk.get_string().to_uppercase()), pk);
}

#[test]
fn text_of_a_key_is_lower_case_hexadecimal() {
    let key = SecretKey(vec![0x00, 0x01, 0x0a, 0x10, 0xab, 0xff]);
    assert_eq!(key.get_string(), "00010a10abff");
    let mut bytes = vec![0u8; 32];
    bytes[0] = 0x12;
    bytes[31] = 0xef;
    let text = format!("12{}ef", "00".repeat(30));
    assert_eq!(SecretKey(bytes.clone()).get_string(), text);
    assert_eq!(Bls12381::load_secret_key(text).0, bytes);
    assert_eq!(Bls12381::load_secret_key(format!("12{}EF", "00".repeat(30))).0, bytes);
}

#[test]
fn malformed_text_gives_the_zero_value() {
    let mut g1_zero = vec![0u8; 48];
    g1_zero[0] = 0xc0;
    let mut g2_zero = vec![0u8; 96];
    g2_zero[0] = 0xc0;
    let mut bytes = Vec::new();
    G1Affine::zero().serialize_compressed(&mut bytes).unwrap();
    assert_eq!(bytes, g1_zero);
    let mut bytes = Vec::new();
    G2Affine::zero().serialize_compressed(&mut bytes).unwrap();
    assert_eq!(bytes, g2_zero);

    for text in ["", "0", "zz", "12345", "é"] {
        assert_eq!(Bls12381::load_secret_key(text.to_string()).0, vec![0u8; 32]);
        assert_eq!(Bls12381::load_public_key(text.to_string()).0, g2_zero);
        assert_eq!(Bls12381::load_signature(text.to_string()).0, g1_zero);
    }
    // the right length, but no hexadecimal digits
    assert_eq!(Bls12381::load_secret_key("g".repeat(64)).0, vec![0u8; 32]);
    assert_eq!(Bls12381::load_public_key("g".repeat(192)).0, g2_zero);
    assert_eq!(Bls12381::load_signature("g".repeat(96)).0, g1_zero);
    // the right length and digits, but no point of the group
    assert_eq!(Bls12381::load_public_key("00".repeat(96)).0, g2_zero);
    assert_eq!(Bls12381::load_signature("00".repeat(48)).0, g1_zero);
    assert_eq!(Bls12381::load_signature(format!("9f{}", "ff".repeat(47))).0, g1_zero);
    assert_eq!(Bls12381::load_public_key(format!("9f{}", "ff".repeat(95))).0, g2_zero);
    // one byte too many
    assert_eq!(Bls12381::load_secret_key("00".repeat(33)).0, vec![0u8; 32]);
}

#[test]
fn malformed_keys_and_signatures_are_reported() {
    let parameters = Bls12381::setup(SEED).unwrap();
    let (pk, sk) = Bls12381::keygen(&parameters).unwrap();
    let sig = Bls12381::sign(&parameters, &sk, b"m").unwrap();
    assert!(matches!(
        Bls12381::sign(&parameters, &SecretKey(vec![1, 2, 3]), b"m"),
        Err(SignatureError::MalformedKeyOrSignature)
    ));
    assert_eq!(
        Bls12381::verify(&parameters, &PublicKey(vec![0; 96]), b"m", &sig),
        Err(SignatureError::MalformedKeyOrSignature)
    );
    assert_eq!(
        Bls12381::verify(&parameters, &pk, b"m", &Signature(vec![0x9f; 48])),
        Err(SignatureError::MalformedKeyOrSignature)
    );
    assert_eq!(
        Bls12381::verify(&parameters, &pk, b"m", &Signature(sig.0[..47].to_vec())),
        Err(SignatureError::MalformedKeyOrSignature)
    );
    assert_eq!(Bls12381::verify(&parameters, &pk, b"m", &sig), Ok(true));
}

#[test]
fn keys_are_what_the_curve_library_computes() {
    for seed in [[1u8; 32], [0u8; 32], [0xa5u8; 32]] {
        let parameters = Bls12381::setup(seed).unwrap();
        let (pk, sk) = Bls12381::keygen(&parameters).unwrap();
        let scalar: BigInteger256 = Fr::rand(&mut ChaCha20Rng::from_seed(seed)).into_bigint();
        let mut scalar_bytes = Vec::new();
        scalar.serialize_compressed(&mut scalar_bytes).unwrap();
        assert_eq!(sk.0, scalar_bytes);
        let point: G2Affine = G2Affine::generator().mul_bigint(scalar).into_affine();
        let mut point_bytes = Vec::new();
        point.serialize_compressed(&mut point_bytes).unwrap();
        assert_eq!(pk.0, point_bytes);
    }
}

#[test]
fn signature_is_the_point_of_the_message_times_the_secret_key() {
    let parameters = Bls12381::setup(SEED).unwrap();
    let (pk, sk) = Bls12381::keygen(&parameters).unwrap();
    let message = b"signed by hand";
    let sig = Bls12381::sign(&parameters, &sk, message).unwrap();
    let (_, point) = hash_to_curve(SEED, message);
    let h = G1Affine::deserialize_compressed(point.as_slice()).unwrap();
    let scalar = BigInteger256::deserialize_compressed(sk.0.as_slice()).unwrap();
    let expected: G1Affine = h.mul_bigint(scalar).into_affine();
    let mut bytes = Vec::new();
    expected.serialize_compressed(&mut bytes).unwrap();
    assert_eq!(sig.0, bytes);
    // the pairing equation, computed by hand
    let public_key = G2Affine::deserialize_compressed(pk.0.as_slice()).unwrap();
    assert_eq!(
        Bls12_381::pairing(expected, G2Affine::generator()),
        Bls12_381::pairing(h, public_key)
    );
}

#[test]
fn sign_then_verify_accepts_for_many_seeds_and_messages() {
    for seed_byte in [0u8, 1, 2, 200] {
        let parameters = Bls12381::setup([seed_byte; 32]).unwrap();
        let (pk, sk) = Bls12381::keygen(&parameters).unwrap();
        for message in [&b""[..], &b"a"[..], &[0u8; 100][..]] {
            let sig = Bls12381::sign(&parameters, &sk, message).unwrap();
            assert_eq!(Bls12381::verify(&parameters, &pk, message, &sig), Ok(true));
            let reloaded = Bls12381::load_signature(sig.get_string());
            assert_eq!(reloaded.0, sig.0);
            let mut longer = message.to_vec();
            longer.push(0);
            assert_eq!(Bls12381::verify(&parameters, &pk, &longer, &sig), Ok(false));
        }
    }
}

#[test]
fn zero_key_and_zero_signature_are_refused() {
    let parameters = Bls12381::setup(SEED).unwrap();
    let (pk, sk) = Bls12381::keygen(&parameters).unwrap();
    let sig = Bls12381::sign(&parameters, &sk, b"m").unwrap();
    let zero_key = Bls12381::load_public_key(String::new());
    let zero_sig = Bls12381::load_signature(String::new());
    assert_eq!(zero_key.0[0], 0xc0);
    assert_eq!(zero_sig.0[0], 0xc0);
    for message in [&b"m"[..], &b""[..], &b"any other message"[..]] {
        assert_eq!(Bls12381::verify(&parameters, &zero_key, message, &zero_sig), Ok(false));
    }
    assert_eq!(Bls12381::verify(&parameters, &zero_key, b"m", &sig), Ok(false));
    assert_eq!(Bls12381::verify(&parameters, &pk, b"m", &zero_sig), Ok(false));
    assert_eq!(Bls12381::verify(&parameters, &pk, b"m", &sig), Ok(true));
    // the zero values of texts that are malformed in other ways
    let key = Bls12381::load_public_key("zz".repeat(96));
    let signature = Bls12381::load_signature("00".repeat(48));
    assert_eq!(Bls12381::verify(&parameters, &key, b"m", &signature), Ok(false));
    assert_eq!(
        Bls12381::verify(&parameters, &PublicKey::default(), b"m", &zero_sig),
        Ok(false)
    );
}

#[test]
fn any_encoding_with_the_flag_of_infinity_is_refused() {
    let parameters = Bls12381::setup(SEED).unwrap();
    let (pk, sk) = Bls12381::keygen(&parameters).unwrap();
    let sig = Bls12381::sign(&parameters, &sk, b"m").unwrap();
    // the flag is set and the other bytes are not zero: still the neutral element
    let key = Bls12381::load_public_key("ff".repeat(96));
    let signature = Bls12381::load_signature("ff".repeat(48));
    assert_eq!(key.0, vec![0xffu8; 96]);
    assert_eq!(signature.0, vec![0xffu8; 48]);
    assert_eq!(Bls12381::verify(&parameters, &key, b"m", &signature), Ok(false));
    assert_eq!(Bls12381::verify(&parameters, &key, b"m", &sig), Ok(false));
    assert_eq!(Bls12381::verify(&parameters, &pk, b"m", &signature), Ok(false));
    let mut flagged = vec![0u8; 96];
    flagged[0] = 0xc0;
    flagged[95] = 1;
    assert_eq!(Bls12381::verify(&parameters, &PublicKey(flagged), b"m", &signature), Ok(false));
}

#[test]
fn the_zero_secret_key_signs_nothing_that_is_accepted() {
    let parameters = Bls12381::setup(SEED).unwrap();
    let zero = Bls12381::load_secret_key(String::from("not a key"));
    assert_eq!(zero.0, vec![0u8; 32]);
    let sig = Bls12381::sign(&parameters, &zero, b"m").unwrap();
    assert_eq!(sig.0[0], 0xc0);
    let (pk, _sk) = Bls12381::keygen(&parameters).unwrap();
    assert_eq!(Bls12381::verify(&parameters, &pk, b"m", &sig), Ok(false));
    assert_eq!(Bls12381::verify(&parameters, &PublicKey::default(), b"m", &sig), Ok(false));
}

#[test]
fn verify_pairs_with_the_fixed_generator() {
    let parameters = Bls12381::setup(SEED).unwrap();
    let (pk, sk) = Bls12381::keygen(&parameters).unwrap();
    let message = b"fixed generator";
    let sig = Bls12381::sign(&parameters, &sk, message).unwrap();
    // parameters with another generator, a malformed one, and the right one
    let doubled: G2Affine = (G2Affine::generator() + G2Affine::generator()).into_affine();
    let mut other = Vec::new();
    doubled.serialize_compressed(&mut other).unwrap();
    for generator in [other, vec![0u8; 96], Vec::new(), parameters.generator.clone()] {
        let changed = Parameters { generator, seed: SEED };
        assert_eq!(Bls12381::verify(&changed, &pk, message, &sig), Ok(true));
        assert_eq!(Bls12381::verify(&changed, &pk, b"another message", &sig), Ok(false));
    }
    // the equation, computed with the curve library over its own generator
    let h = G1Affine::deserialize_compressed(hash_to_curve(SEED, message).1.as_slice()).unwrap();
    let signature = G1Affine::deserialize_compressed(sig.0.as_slice()).unwrap();
    let key = G2Affine::deserialize_compressed(pk.0.as_slice()).unwrap();
    assert_eq!(
        Bls12_381::pairing(signature, G2Affine::generator()),
        Bls12_381::pairing(h, key)
    );
    // a key pair made under another generator does not verify
    let changed = Parameters { generator: {
        let mut bytes = Vec::new();
        doubled.serialize_compressed(&mut bytes).unwrap();
        bytes
    }, seed: SEED };
    let (other_pk, other_sk) = Bls12381::keygen(&changed).unwrap();
    assert_eq!(other_sk.0, sk.0);
    assert_ne!(other_pk, pk);
    let other_sig = Bls12381::sign(&changed, &other_sk, message).unwrap();
    assert_eq!(other_sig.0, sig.0);
    assert_eq!(Bls12381::verify(&changed, &other_pk, message, &other_sig), Ok(false));
}

#[test]
fn default_public_key_is_the_neutral_element() {
    let key = PublicKey::default();
    let mut expected = Vec::new();
    G2Affine::zero().serialize_compressed(&mut expected).unwrap();
    assert_eq!(key.0, expected);
    assert_eq!(key, Bls12381::load_public_key(String::from("malformed")));
    assert_eq!(Bls12381::load_public_key(key.get_string()), key);
}

#[test]
fn digest_of_hash_to_curve_has_32_bytes() {
    for message in [&b""[..], &[7u8; 1000][..]] {
        let (digest, point) = hash_to_curve(SEED, message);
        assert_eq!(digest.len(), 32);
        assert_eq!(point.len(), 48);
    }
}
