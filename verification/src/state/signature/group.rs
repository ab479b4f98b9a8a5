//! The groups of the pairing-friendly curve BLS12-381, as far as the
//! signature scheme uses them. Points and scalars cross this boundary in
//! their canonical encodings.

use vstd::prelude::*;
use ark_bls12_381::{Bls12_381, Fr, G1Affine, G1Projective, G2Affine};
use ark_ec::pairing::Pairing;
use ark_ec::{AffineRepr, CurveGroup};
use ark_ff::{BigInteger256, PrimeField, UniformRand};
use ark_serialize::{CanonicalDeserialize, CanonicalSerialize};
use rand::SeedableRng;
use rand_chacha::ChaCha20Rng;

verus! {

/// The length of an encoded point of the first group.
pub const G1_LEN: usize = 48;

/// The length of an encoded point of the second group.
pub const G2_LEN: usize = 96;

/// The length of an encoded scalar.
pub const SCALAR_LEN: usize = 32;

/// The ChaCha random source with 20 rounds, carried as an opaque value.
#[verifier::external_type_specification]
#[verifier::external_body]
pub struct ExChaCha20Rng(ChaCha20Rng);

/// The encoding of the neutral element in `len` bytes: the flags for a
/// compressed point at infinity, then zeros.
pub open spec fn identity_encoding(len: nat) -> Seq<u8> {
    Seq::new(len, |i: int| if i == 0 { 0xc0u8 } else { 0u8 })
}

/// Whether the bytes carry the flag of a point at infinity in their first
/// byte. An encoding with this flag is read as the neutral element, whatever
/// its other bytes hold; one without it is never read as the neutral element.
pub open spec fn neutral(bytes: Seq<u8>) -> bool {
    bytes.len() > 0 && (bytes[0] as int / 64) % 2 == 1
}

/// The encoding of the generator of the second group.
pub open spec fn g2_generator_encoding() -> Seq<u8> {
    seq![
        0x93u8, 0xe0u8, 0x2bu8, 0x60u8, 0x52u8, 0x71u8, 0x9fu8, 0x60u8,
        0x7du8, 0xacu8, 0xd3u8, 0xa0u8, 0x88u8, 0x27u8, 0x4fu8, 0x65u8,
        0x59u8, 0x6bu8, 0xd0u8, 0xd0u8, 0x99u8, 0x20u8, 0xb6u8, 0x1au8,
        0xb5u8, 0xdau8, 0x61u8, 0xbbu8, 0xdcu8, 0x7fu8, 0x50u8, 0x49u8,
        0x33u8, 0x4cu8, 0xf1u8, 0x12u8, 0x13u8, 0x94u8, 0x5du8, 0x57u8,
        0xe5u8, 0xacu8, 0x7du8, 0x05u8, 0x5du8, 0x04u8, 0x2bu8, 0x7eu8,
        0x02u8, 0x4au8, 0xa2u8, 0xb2u8, 0xf0u8, 0x8fu8, 0x0au8, 0x91u8,
        0x26u8, 0x08u8, 0x05u8, 0x27u8, 0x2du8, 0xc5u8, 0x10u8, 0x51u8,
        0xc6u8, 0xe4u8, 0x7au8, 0xd4u8, 0xfau8, 0x40u8, 0x3bu8, 0x02u8,
        0xb4u8, 0x51u8, 0x0bu8, 0x64u8, 0x7au8, 0xe3u8, 0xd1u8, 0x77u8,
        0x0bu8, 0xacu8, 0x03u8, 0x26u8, 0xa8u8, 0x05u8, 0xbbu8, 0xefu8,
        0xd4u8, 0x80u8, 0x56u8, 0xc8u8, 0xc1u8, 0x21u8, 0xbdu8, 0xb8u8,
    ]
}

/// Whether the bytes are the encoding of a point of the first group.
pub uninterp spec fn g1_decodes(bytes: Seq<u8>) -> bool;

/// Whether the bytes are the encoding of a point of the second group.
pub uninterp spec fn g2_decodes(bytes: Seq<u8>) -> bool;

/// The generator that a random source is in after it was set up from a seed.
pub uninterp spec fn seeded_rng(seed: Seq<u8>) -> ChaCha20Rng;

/// The encoding of the point of the first group that the random source yields next.
pub uninterp spec fn drawn_point(rng: ChaCha20Rng) -> Seq<u8>;

/// The random source after it has yielded a point of the first group.
pub uninterp spec fn rng_after_point(rng: ChaCha20Rng) -> ChaCha20Rng;

/// The encoding of the scalar that the random source yields next.
pub uninterp spec fn drawn_scalar(rng: ChaCha20Rng) -> Seq<u8>;

/// The encoding of the sum of two encoded points of the first group.
pub uninterp spec fn g1_sum(a: Seq<u8>, b: Seq<u8>) -> Seq<u8>;

/// The encoding of the multiple of an encoded point of the first group by an encoded scalar.
pub uninterp spec fn g1_scalar_mul(point: Seq<u8>, scalar: Seq<u8>) -> Seq<u8>;

/// The encoding of the multiple of an encoded point of the second group by an encoded scalar.
pub uninterp spec fn g2_scalar_mul(point: Seq<u8>, scalar: Seq<u8>) -> Seq<u8>;

/// The encoding of the pairing of an encoded point of the first group with one of the second.
pub uninterp spec fn pairing_value(g1: Seq<u8>, g2: Seq<u8>) -> Seq<u8>;

/// Whether the bytes carry the flag of a point at infinity.
pub fn is_neutral(bytes: &Vec<u8>) -> (flagged: bool)
    ensures
        flagged == neutral(bytes@),
{
    bytes.len() > 0 && (bytes[0] / 64) % 2 == 1
}

/// Calls `SeedableRng::from_seed` of `ChaCha20Rng`. Trusted: the result is a
/// function of the seed.
#[verifier::external_body]
pub(crate) fn rng_from_seed(seed: [u8; 32]) -> (rng: ChaCha20Rng)
    ensures
        rng == seeded_rng(seed@),
{
    ChaCha20Rng::from_seed(seed)
}

/// Calls `UniformRand::rand` of `G1Projective` and writes the point in its
/// compressed canonical form. Trusted: the bytes and the state the random
/// source is left in are functions of the state it was in; there are `G1_LEN`
/// bytes and they can be read back as a point.
#[verifier::external_body]
pub(crate) fn draw_point(rng: &mut ChaCha20Rng) -> (point: Vec<u8>)
    ensures
        point@ == drawn_point(*old(rng)),
        point@.len() == G1_LEN,
        g1_decodes(point@),
        *final(rng) == rng_after_point(*old(rng)),
{
    let mut bytes = Vec::new();
    let _ = G1Projective::rand(rng).into_affine().serialize_compressed(&mut bytes);
    bytes
}

/// Calls `UniformRand::rand` of `Fr` and writes the scalar as a big integer.
/// Trusted: the bytes are a function of the state the random source was in,
/// and there are `SCALAR_LEN` of them.
#[verifier::external_body]
pub(crate) fn draw_scalar(rng: &mut ChaCha20Rng) -> (scalar: Vec<u8>)
    ensures
        scalar@ == drawn_scalar(*old(rng)),
        scalar@.len() == SCALAR_LEN,
{
    let value: BigInteger256 = Fr::rand(rng).into_bigint();
    let mut bytes = Vec::new();
    let _ = value.serialize_compressed(&mut bytes);
    bytes
}

/// Calls the addition of `G1Affine`; bytes that cannot be read stand for the
/// neutral element. Trusted: the result is what `g1_sum` names for the two
/// encodings, and it has `G1_LEN` bytes that can be read back as a point.
#[verifier::external_body]
pub(crate) fn add_points(a: &[u8], b: &[u8]) -> (sum: Vec<u8>)
    ensures
        sum@ == g1_sum(a@, b@),
        sum@.len() == G1_LEN,
        g1_decodes(sum@),
{
    let p = G1Affine::deserialize_compressed(a).unwrap_or_default();
    let q = G1Affine::deserialize_compressed(b).unwrap_or_default();
    let mut bytes = Vec::new();
    let _ = (p + q).into_affine().serialize_compressed(&mut bytes);
    bytes
}

/// Writes `G1Affine::zero` in its compressed canonical form. Trusted: the
/// bytes are the flags of a compressed point at infinity followed by zeros,
/// and they can be read back as a point.
#[verifier::external_body]
pub(crate) fn g1_identity() -> (bytes: Vec<u8>)
    ensures
        bytes@ == identity_encoding(G1_LEN as nat),
        bytes@.len() == G1_LEN,
        g1_decodes(bytes@),
{
    let mut bytes = Vec::new();
    let _ = G1Affine::zero().serialize_compressed(&mut bytes);
    bytes
}

/// Writes `G2Affine::zero` in its compressed canonical form. Trusted: the
/// bytes are the flags of a compressed point at infinity followed by zeros,
/// and they can be read back as a point.
#[verifier::external_body]
pub(crate) fn g2_identity() -> (bytes: Vec<u8>)
    ensures
        bytes@ == identity_encoding(G2_LEN as nat),
        g2_decodes(bytes@),
{
    let mut bytes = Vec::new();
    let _ = G2Affine::zero().serialize_compressed(&mut bytes);
    bytes
}

/// Writes `AffineRepr::generator` of `G2Affine` in its compressed canonical
/// form. Trusted: the bytes are those of `g2_generator_encoding`, and they
/// can be read back as a point.
#[verifier::external_body]
pub(crate) fn g2_generator() -> (bytes: Vec<u8>)
    ensures
        bytes@ == g2_generator_encoding(),
        g2_decodes(bytes@),
{
    let mut bytes = Vec::new();
    let _ = G2Affine::generator().serialize_compressed(&mut bytes);
    bytes
}

/// Calls `CanonicalDeserialize::deserialize_compressed` of `G1Affine`, which
/// checks that the point is on the curve and in the group. Trusted: the
/// answer is what `g1_decodes` names for the bytes.
#[verifier::external_body]
pub(crate) fn is_g1_encoding(bytes: &[u8]) -> (ok: bool)
    ensures
        ok == g1_decodes(bytes@),
{
    G1Affine::deserialize_compressed(bytes).is_ok()
}

/// Calls `CanonicalDeserialize::deserialize_compressed` of `G2Affine`, which
/// checks that the point is on the curve and in the group. Trusted: the
/// answer is what `g2_decodes` names for the bytes.
#[verifier::external_body]
pub(crate) fn is_g2_encoding(bytes: &[u8]) -> (ok: bool)
    ensures
        ok == g2_decodes(bytes@),
{
    G2Affine::deserialize_compressed(bytes).is_ok()
}

/// Calls `AffineRepr::mul_bigint` of `G1Affine`; bytes that cannot be read
/// stand for the neutral element and for zero. Trusted: the result is what
/// `g1_scalar_mul` names; it has `G1_LEN` bytes that can be read back as a
/// point; and, the pairing being bilinear, pairing the multiple with a point
/// of the second group equals pairing the point with that point's multiple.
#[verifier::external_body]
pub(crate) fn mul_g1(point: &[u8], scalar: &[u8]) -> (multiple: Vec<u8>)
    ensures
        multiple@ == g1_scalar_mul(point@, scalar@),
        multiple@.len() == G1_LEN,
        g1_decodes(multiple@),
        forall|other: Seq<u8>|
            pairing_value(multiple@, other) == pairing_value(
                point@,
                #[trigger] g2_scalar_mul(other, scalar@),
            ),
{
    let p = G1Affine::deserialize_compressed(point).unwrap_or_default();
    let s = BigInteger256::deserialize_compressed(scalar).unwrap_or_default();
    let mut bytes = Vec::new();
    let _ = p.mul_bigint(s).into_affine().serialize_compressed(&mut bytes);
    bytes
}

/// Calls `AffineRepr::mul_bigint` of `G2Affine`; bytes that cannot be read
/// stand for the neutral element and for zero. Trusted: the result is what
/// `g2_scalar_mul` names, and it has `G2_LEN` bytes that can be read back as
/// a point.
#[verifier::external_body]
pub(crate) fn mul_g2(point: &[u8], scalar: &[u8]) -> (multiple: Vec<u8>)
    ensures
        multiple@ == g2_scalar_mul(point@, scalar@),
        multiple@.len() == G2_LEN,
        g2_decodes(multiple@),
{
    let p = G2Affine::deserialize_compressed(point).unwrap_or_default();
    let s = BigInteger256::deserialize_compressed(scalar).unwrap_or_default();
    let mut bytes = Vec::new();
    let _ = p.mul_bigint(s).into_affine().serialize_compressed(&mut bytes);
    bytes
}

/// Calls `Pairing::pairing` of `Bls12_381` and writes the result in its
/// canonical form; bytes that cannot be read stand for the neutral element.
/// Trusted: the result is what `pairing_value` names for the two encodings.
#[verifier::external_body]
pub(crate) fn pair(g1: &[u8], g2: &[u8]) -> (value: Vec<u8>)
    ensures
        value@ == pairing_value(g1@, g2@),
{
    let p = G1Affine::deserialize_compressed(g1).unwrap_or_default();
    let q = G2Affine::deserialize_compressed(g2).unwrap_or_default();
    let mut bytes = Vec::new();
    let _ = Bls12_381::pairing(p, q).serialize_compressed(&mut bytes);
    bytes
}

} // verus!
