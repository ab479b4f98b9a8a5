use ark_crypto_primitives::crh::sha256::Sha256;
use ark_crypto_primitives::crh::{CRHScheme, TwoToOneCRHScheme};
use ark_crypto_primitives::merkle_tree::{ByteDigestConverter, Config, MerkleTree};
use identity::merkle_tree::{AccountMerkleTree, MerkleError, Path, MAX_HEIGHT};

struct Sha256Tree;

impl Config for Sha256Tree {
    type Leaf = [u8];
    type LeafDigest = Vec<u8>;
    type LeafInnerDigestConverter = ByteDigestConverter<Vec<u8>>;
    type InnerDigest = Vec<u8>;
    type LeafHash = Sha256;
    type TwoToOneHash = Sha256;
}

fn four_leaves() -> Vec<Vec<u8>> {
    let mut leaves: Vec<Vec<u8>> = Vec::new();
    for i in 0..4u8 {
        leaves.push(vec![i; 30]);
    }
    leaves
}

#[test]
fn test_simple_merkle_tree() {
    let leaves = four_leaves();
    let tree = AccountMerkleTree::new(&leaves).unwrap();
    let proof = tree.generate_proof(2).unwrap();
    let root = tree.root();
    let result = proof.verify(&root, &vec![2; 30]);
    assert!(result);
}

#[test]
fn proof_is_rejected_for_another_leaf() {
    let tree = AccountMerkleTree::new(&four_leaves()).unwrap();
    let proof = tree.generate_proof(2).unwrap();
    let root = tree.root();
    assert!(!proof.verify(&root, &vec![3; 30]));
    assert!(!proof.verify(&root, &vec![2; 29]));
}

#[test]
fn inclusion_round_trip_for_every_index() {
    for height in 0..5usize {
        let mut tree = AccountMerkleTree::blank(height).unwrap();
        let count = tree.leaf_count();
        assert_eq!(count, 1usize << height);
        for index in 0..count {
            let leaf = vec![index as u8 + 1; 40];
            tree.update(index, &leaf).unwrap();
            let proof = tree.generate_proof(index).unwrap();
            assert_eq!(proof.leaf_index, index);
            assert_eq!(proof.siblings.len(), height);
            assert!(proof.verify(&tree.root(), &leaf));
        }
        for index in 0..count {
            let leaf = vec![index as u8 + 1; 40];
            let proof = tree.generate_proof(index).unwrap();
            assert!(proof.verify(&tree.root(), &leaf));
        }
    }
}

#[test]
fn tampering_with_leaf_or_sibling_is_rejected() {
    let mut tree = AccountMerkleTree::blank(3).unwrap();
    let leaf: Vec<u8> = (0..72u8).collect();
    tree.update(5, &leaf).unwrap();
    let root = tree.root();
    let proof = tree.generate_proof(5).unwrap();
    assert!(proof.verify(&root, &leaf));
    for position in 0..leaf.len() {
        let mut changed = leaf.clone();
        changed[position] ^= 1;
        assert!(!proof.verify(&root, &changed));
    }
    for level in 0..proof.siblings.len() {
        let mut siblings = proof.siblings.clone();
        if siblings[level].is_empty() {
            siblings[level].push(0);
        } else {
            siblings[level][0] ^= 0x80;
        }
        let changed = Path { leaf_index: proof.leaf_index, siblings };
        assert!(!changed.verify(&root, &leaf));
    }
    let moved = Path { leaf_index: 4, siblings: proof.siblings.clone() };
    assert!(!moved.verify(&root, &leaf));
}

#[test]
fn proof_of_another_height_is_rejected() {
    let mut small = AccountMerkleTree::blank(2).unwrap();
    let mut large = AccountMerkleTree::blank(3).unwrap();
    let leaf = vec![9u8; 10];
    small.update(1, &leaf).unwrap();
    large.update(1, &leaf).unwrap();
    let proof = small.generate_proof(1).unwrap();
    assert!(proof.verify(&small.root(), &leaf));
    assert!(!proof.verify(&large.root(), &leaf));
}

#[test]
fn update_changes_the_root_and_nothing_else() {
    let mut tree = AccountMerkleTree::blank(2).unwrap();
    let before = tree.root();
    tree.update(3, &[1, 2, 3]).unwrap();
    let after = tree.root();
    assert_ne!(before, after);
    tree.update(3, &[1, 2, 3]).unwrap();
    assert_eq!(tree.root(), after);
}

#[test]
fn index_out_of_range_is_reported() {
    let mut tree = AccountMerkleTree::blank(2).unwrap();
    let root = tree.root();
    assert_eq!(tree.update(4, &[1]), Err(MerkleError::IndexOutOfRange));
    assert_eq!(tree.root(), root);
    assert!(matches!(tree.generate_proof(4), Err(MerkleError::IndexOutOfRange)));
    assert!(tree.generate_proof(3).is_ok());
}

#[test]
fn height_and_leaf_count_are_checked() {
    assert!(matches!(
        AccountMerkleTree::blank(MAX_HEIGHT + 1),
        Err(MerkleError::HeightTooLarge)
    ));
    let three = vec![vec![1u8], vec![2u8], vec![3u8]];
    assert!(matches!(
        AccountMerkleTree::new(&three),
        Err(MerkleError::LeafCountNotPowerOfTwo)
    ));
    let none: Vec<Vec<u8>> = Vec::new();
    assert!(matches!(
        AccountMerkleTree::new(&none),
        Err(MerkleError::LeafCountNotPowerOfTwo)
    ));
    let one = vec![vec![7u8; 3]];
    let tree = AccountMerkleTree::new(&one).unwrap();
    assert_eq!(tree.leaf_count(), 1);
    let proof = tree.generate_proof(0).unwrap();
    assert!(proof.siblings.is_empty());
    assert!(proof.verify(&tree.root(), &[7u8; 3]));
}

#[test]
fn tree_agrees_with_the_sha256_merkle_tree_of_the_crate() {
    let leaves: Vec<Vec<u8>> = (0..8u8).map(|i| vec![i; 30]).collect();
    let ours = AccountMerkleTree::new(&leaves).unwrap();
    let theirs =
        MerkleTree::<Sha256Tree>::new(&(), &(), leaves.iter().map(|v| v.as_slice())).unwrap();
    assert_eq!(ours.root(), theirs.root());
    for index in 0..8usize {
        let path = ours.generate_proof(index).unwrap();
        let other = theirs.generate_proof(index).unwrap();
        assert_eq!(path.siblings[0], other.leaf_sibling_hash);
        let mut upper: Vec<Vec<u8>> = path.siblings[1..].to_vec();
        upper.reverse();
        assert_eq!(upper, other.auth_path);
        assert!(other
            .verify(&(), &(), &ours.root(), leaves[index].as_slice())
            .unwrap());
    }
}

#[test]
fn blank_and_updated_tree_agree_with_the_crate() {
    let mut ours = AccountMerkleTree::blank(3).unwrap();
    let mut theirs = MerkleTree::<Sha256Tree>::blank(&(), &(), 4).unwrap();
    assert_eq!(ours.root(), theirs.root());
    let leaf = vec![0xabu8; 72];
    ours.update(6, &leaf).unwrap();
    theirs.update(6, leaf.as_slice()).unwrap();
    assert_eq!(ours.root(), theirs.root());
}

#[test]
fn root_of_two_leaves_is_the_digest_of_their_converted_digests() {
    let leaves = vec![vec![1u8, 2, 3], vec![4u8, 5]];
    let tree = AccountMerkleTree::new(&leaves).unwrap();
    let left = <Sha256 as CRHScheme>::evaluate(&(), leaves[0].as_slice()).unwrap();
    let right = <Sha256 as CRHScheme>::evaluate(&(), leaves[1].as_slice()).unwrap();
    assert_eq!(left.len(), 32);
    let mut left_input = 32u64.to_le_bytes().to_vec();
    left_input.extend_from_slice(&left);
    let mut right_input = 32u64.to_le_bytes().to_vec();
    right_input.extend_from_slice(&right);
    let root = <Sha256 as TwoToOneCRHScheme>::evaluate(
        &(),
        left_input.as_slice(),
        right_input.as_slice(),
    )
    .unwrap();
    assert_eq!(tree.root(), root);
}
