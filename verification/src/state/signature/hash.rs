//! Hash-to-curve: from a message to a point of the first group.
//!
//! The message is hashed with BLAKE2s, and the 256 bits of the digest select
//! which of 256 points, drawn from a random source that the seed fixes, are
//! added up: a Pedersen hash with windows of one bit.

use vstd::prelude::*;
use rand_chacha::ChaCha20Rng;
use crate::state::signature::group::{
    add_points, draw_point, drawn_point, g1_decodes, g1_identity, g1_sum, identity_encoding,
    rng_after_point, rng_from_seed, seeded_rng, G1_LEN,
};

verus! {

/// The length of a message digest.
pub const DIGEST_LEN: usize = 32;

/// The BLAKE2s digest of a message.
pub uninterp spec fn blake2s_digest(message: Seq<u8>) -> Seq<u8>;

/// Calls `blake2s_simd::blake2s`. Trusted: the result is what
/// `blake2s_digest` names for the message, and it has `DIGEST_LEN` bytes.
#[verifier::external_body]
fn blake2s(message: &[u8]) -> (digest: Vec<u8>)
    ensures
        digest@ == blake2s_digest(message@),
        digest@.len() == DIGEST_LEN,
{
    blake2s_simd::blake2s(message).as_bytes().to_vec()
}

/// Where a Pedersen hash stands: the random source that yields the next
/// point, and the encoded sum of the points selected so far.
pub struct PedersenState {
    pub rng: ChaCha20Rng,
    pub sum: Seq<u8>,
}

/// The state after the lowest `count` bits of `byte` were absorbed, lowest
/// first: each bit draws a point, and a set bit adds it.
pub open spec fn absorb_bits(state: PedersenState, byte: int, count: nat) -> PedersenState
    decreases count,
{
    if count == 0 {
        state
    } else {
        let point = drawn_point(state.rng);
        let sum = if byte % 2 == 1 {
            g1_sum(state.sum, point)
        } else {
            state.sum
        };
        absorb_bits(
            PedersenState { rng: rng_after_point(state.rng), sum },
            byte / 2,
            (count - 1) as nat,
        )
    }
}

/// The state after every bit of `bytes` was absorbed, byte by byte.
pub open spec fn absorb_bytes(state: PedersenState, bytes: Seq<u8>) -> PedersenState
    decreases bytes.len(),
{
    if bytes.len() == 0 {
        state
    } else {
        absorb_bytes(absorb_bits(state, bytes[0] as int, 8), bytes.drop_first())
    }
}

/// The encoded point that a digest is mapped to under a seed: the sum, from
/// the neutral element on, of the points that the bits of the digest select.
pub open spec fn curve_point(seed: Seq<u8>, digest: Seq<u8>) -> Seq<u8> {
    absorb_bytes(
        PedersenState { rng: seeded_rng(seed), sum: identity_encoding(G1_LEN as nat) },
        digest,
    ).sum
}

/// Maps a message to its BLAKE2s digest and to the encoded point of the first
/// group that the digest selects under `seed`. The result depends on the seed
/// and the message alone.
pub fn hash_to_curve(seed: [u8; 32], msg: &[u8]) -> (r: (Vec<u8>, Vec<u8>))
    ensures
        r.0@ == blake2s_digest(msg@),
        r.0@.len() == DIGEST_LEN,
        r.1@ == curve_point(seed@, blake2s_digest(msg@)),
        r.1@.len() == G1_LEN,
        g1_decodes(r.1@),
{
    let digest = blake2s(msg);
    let mut rng = rng_from_seed(seed);
    let mut sum: Vec<u8> = g1_identity();
    let ghost start = PedersenState {
        rng: seeded_rng(seed@),
        sum: identity_encoding(G1_LEN as nat),
    };
    let mut i: usize = 0;
    assert(digest@.skip(0) =~= digest@);
    while i < digest.len()
        invariant
            i <= digest.len(),
            sum@.len() == G1_LEN,
            g1_decodes(sum@),
            absorb_bytes(PedersenState { rng, sum: sum@ }, digest@.skip(i as int)) == absorb_bytes(
                start,
                digest@,
            ),
        decreases digest.len() - i,
    {
        let ghost entered = PedersenState { rng, sum: sum@ };
        let mut rest: u8 = digest[i];
        let mut k: usize = 0;
        while k < 8
            invariant
                k <= 8,
                sum@.len() == G1_LEN,
                g1_decodes(sum@),
                absorb_bits(PedersenState { rng, sum: sum@ }, rest as int, (8 - k) as nat)
                    == absorb_bits(entered, digest@[i as int] as int, 8),
            decreases 8 - k,
        {
            let point = draw_point(&mut rng);
            if rest % 2 == 1 {
                sum = add_points(sum.as_slice(), point.as_slice());
            }
            rest = rest / 2;
            k += 1;
        }
        assert(digest@.skip(i as int).drop_first() =~= digest@.skip(i + 1));
        i += 1;
    }
    (digest, sum)
}

} // verus!
