//! A fixed-height Merkle commitment over byte-string leaves.

use vstd::prelude::*;
use crate::bytes::{copy_bytes, same_bytes};
use crate::crh::{
    convert_digest, digest_input, hash_leaf, hash_two_to_one, leaf_digest, two_to_one_digest,
};

verus! {

/// The greatest height a tree may have: its leaf level then still fits a
/// 32-bit address space.
pub const MAX_HEIGHT: usize = 31;

/// The root digest of a tree.
pub type Root = Vec<u8>;

/// Why an operation on a tree was refused.
#[derive(Clone, Copy, Debug, PartialEq, Eq, Structural)]
pub enum MerkleError {
    /// The index does not name a leaf of the tree.
    IndexOutOfRange,
    /// The height exceeds `MAX_HEIGHT`.
    HeightTooLarge,
    /// The number of leaves is not a power of two with exponent at most `MAX_HEIGHT`.
    LeafCountNotPowerOfTwo,
}

/// Two to the power `e`.
pub open spec fn pow2(e: nat) -> nat
    decreases e,
{
    if e == 0 {
        1
    } else {
        2 * pow2((e - 1) as nat)
    }
}

/// The digest of a node from those of its children; the children of a node on
/// the lowest inner level are leaf digests and enter the hash converted.
pub open spec fn pair_digest(bottom: bool, left: Seq<u8>, right: Seq<u8>) -> Seq<u8> {
    if bottom {
        two_to_one_digest(digest_input(left), digest_input(right))
    } else {
        two_to_one_digest(left, right)
    }
}

/// The level above `level`: node `m` is the digest of nodes `2m` and `2m + 1`.
pub open spec fn level_up(level: Seq<Seq<u8>>, bottom: bool) -> Seq<Seq<u8>> {
    Seq::new((level.len() / 2) as nat, |m: int| pair_digest(bottom, level[2 * m], level[2 * m + 1]))
}

/// The root above `level`, reached by halving the level until one node is left.
pub open spec fn root_from(level: Seq<Seq<u8>>, bottom: bool) -> Seq<u8>
    decreases level.len(),
{
    if level.len() == 0 {
        Seq::empty()
    } else if level.len() == 1 {
        level[0]
    } else {
        root_from(level_up(level, bottom), false)
    }
}

/// The root that commits to the leaf digests `leaves`.
pub open spec fn merkle_root(leaves: Seq<Seq<u8>>) -> Seq<u8> {
    root_from(leaves, true)
}

/// The position next to `i` under the same parent.
pub open spec fn sibling_index(i: int) -> int {
    if i % 2 == 0 {
        i + 1
    } else {
        i - 1
    }
}

/// The siblings met on the way from node `i` of `level` to the root, lowest first.
pub open spec fn siblings_from(level: Seq<Seq<u8>>, i: int, bottom: bool) -> Seq<Seq<u8>>
    decreases level.len(),
{
    if level.len() <= 1 {
        Seq::empty()
    } else {
        seq![level[sibling_index(i)]] + siblings_from(level_up(level, bottom), i / 2, false)
    }
}

/// The siblings that authenticate leaf `i` among `leaves`, from leaf to root.
pub open spec fn auth_siblings(leaves: Seq<Seq<u8>>, i: int) -> Seq<Seq<u8>> {
    siblings_from(leaves, i, true)
}

/// The digest reached from `cur` at position `i` by hashing with each sibling in turn.
pub open spec fn climb(cur: Seq<u8>, i: int, siblings: Seq<Seq<u8>>, bottom: bool) -> Seq<u8>
    decreases siblings.len(),
{
    if siblings.len() == 0 {
        cur
    } else {
        let parent = if i % 2 == 0 {
            pair_digest(bottom, cur, siblings[0])
        } else {
            pair_digest(bottom, siblings[0], cur)
        };
        climb(parent, i / 2, siblings.drop_first(), false)
    }
}

/// Whether the siblings lead from the digest of `leaf` at position `index` to `root`.
pub open spec fn path_accepts(index: int, siblings: Seq<Seq<u8>>, root: Seq<u8>, leaf: Seq<u8>) -> bool {
    climb(leaf_digest(leaf), index, siblings, true) == root
}

/// The byte strings held by a vector of digests.
pub open spec fn digests_of(nodes: Seq<Vec<u8>>) -> Seq<Seq<u8>> {
    Seq::new(nodes.len(), |i: int| nodes[i]@)
}

/// Whether level `l + 1` holds, node for node, the digests of the pairs of level `l`.
pub open spec fn level_ok(levels: Seq<Vec<Vec<u8>>>, l: int) -> bool {
    digests_of(levels[l + 1]@) =~= level_up(digests_of(levels[l]@), l == 0)
}

/// An authenticated array of `2^height` leaves under one root digest.
///
/// The tree keeps the digest of every node, level by level: the leaf digests
/// first, the root last.
#[derive(Clone)]
pub struct AccountMerkleTree {
    levels: Vec<Vec<Vec<u8>>>,
}

/// An inclusion proof: the position of a leaf and the sibling digests on the
/// way from that leaf to the root, lowest first.
#[derive(Clone, Debug, PartialEq, Eq)]
pub struct Path {
    pub leaf_index: usize,
    pub siblings: Vec<Vec<u8>>,
}

/// Two to a power is positive, and from the first power on it is even and
/// twice the power before.
pub proof fn lemma_pow2_positive(e: nat)
    ensures
        pow2(e) >= 1,
        e >= 1 ==> pow2(e) >= 2 && pow2(e) % 2 == 0 && pow2(e) / 2 == pow2((e - 1) as nat),
    decreases e,
{
    if e >= 1 {
        lemma_pow2_positive((e - 1) as nat);
    }
}

/// Two to a power grows with the exponent.
pub proof fn lemma_pow2_monotone(a: nat, b: nat)
    requires
        a <= b,
    ensures
        pow2(a) <= pow2(b),
    decreases b,
{
    if a < b {
        lemma_pow2_monotone(a, (b - 1) as nat);
    }
}

/// Two to the power `MAX_HEIGHT` is 2^31.
pub proof fn lemma_pow2_max()
    ensures
        pow2(MAX_HEIGHT as nat) == 0x8000_0000,
{
    reveal_with_fuel(pow2, 32);
}

fn hash_pair(bottom: bool, left: &Vec<u8>, right: &Vec<u8>) -> (digest: Vec<u8>)
    ensures
        digest@ == pair_digest(bottom, left@, right@),
{
    if bottom {
        let l = convert_digest(copy_bytes(left)).unwrap();
        let r = convert_digest(copy_bytes(right)).unwrap();
        hash_two_to_one(l.as_slice(), r.as_slice()).unwrap()
    } else {
        hash_two_to_one(left.as_slice(), right.as_slice()).unwrap()
    }
}

fn pow2_usize(e: usize) -> (r: usize)
    requires
        e <= MAX_HEIGHT,
    ensures
        r == pow2(e as nat),
{
    let mut r: usize = 1;
    let mut i: usize = 0;
    while i < e
        invariant
            i <= e <= MAX_HEIGHT,
            r == pow2(i as nat),
        decreases e - i,
    {
        proof {
            lemma_pow2_monotone((i + 1) as nat, MAX_HEIGHT as nat);
            lemma_pow2_max();
        }
        r = r * 2;
        i += 1;
    }
    r
}

impl AccountMerkleTree {
    /// The number of levels above the leaves.
    pub closed spec fn height(&self) -> nat {
        (self.levels.len() - 1) as nat
    }

    /// The leaf digests, by position.
    pub closed spec fn leaves(&self) -> Seq<Seq<u8>> {
        digests_of(self.levels[0]@)
    }

    /// Every level has half the nodes of the one below, down from a single
    /// root, and every inner node holds the digest of its two children.
    pub closed spec fn wf(&self) -> bool {
        &&& 1 <= self.levels.len() <= MAX_HEIGHT + 1
        &&& forall|l: int|
            0 <= l < self.levels.len() ==> (#[trigger] self.levels[l]).len() == pow2(
                (self.levels.len() - 1 - l) as nat,
            )
        &&& forall|l: int| 0 <= l < self.levels.len() - 1 ==> #[trigger] level_ok(self.levels@, l)
    }

    /// A well-formed tree of height `h` has `2^h` leaves, and `h` is at most `MAX_HEIGHT`.
    pub proof fn lemma_leaf_count(&self)
        requires
            self.wf(),
        ensures
            self.height() <= MAX_HEIGHT,
            self.leaves().len() == pow2(self.height()),
            1 <= self.leaves().len() <= 0x8000_0000,
    {
        lemma_pow2_positive(self.height());
        lemma_pow2_monotone(self.height(), MAX_HEIGHT as nat);
        lemma_pow2_max();
    }

    proof fn lemma_root_above(&self, l: int)
        requires
            self.wf(),
            0 <= l < self.levels.len(),
        ensures
            root_from(digests_of(self.levels[l]@), l == 0) == self.levels[self.levels.len() - 1][0]@,
        decreases self.levels.len() - l,
    {
        let h = self.levels.len() - 1;
        if l < h {
            lemma_pow2_positive((h - l) as nat);
            assert(level_ok(self.levels@, l));
            self.lemma_root_above(l + 1);
        }
    }

    fn build(leaf_digests: Vec<Vec<u8>>, Ghost(h): Ghost<nat>) -> (tree: Self)
        requires
            h <= MAX_HEIGHT,
            leaf_digests.len() == pow2(h),
        ensures
            tree.wf(),
            tree.height() == h,
            tree.leaves() == digests_of(leaf_digests@),
    {
        let mut levels: Vec<Vec<Vec<u8>>> = Vec::new();
        levels.push(leaf_digests);
        while levels[levels.len() - 1].len() > 1
            invariant
                1 <= levels.len() <= h + 1,
                levels[0] == leaf_digests,
                forall|l: int|
                    0 <= l < levels.len() ==> (#[trigger] levels[l]).len() == pow2((h - l) as nat),
                forall|l: int| 0 <= l < levels.len() - 1 ==> #[trigger] level_ok(levels@, l),
            decreases h + 1 - levels.len(),
        {
            let k: usize = levels.len() - 1;
            proof {
                lemma_pow2_positive((h - k) as nat);
            }
            let mut next: Vec<Vec<u8>> = Vec::new();
            let half: usize = levels[k].len() / 2;
            let mut m: usize = 0;
            while m < half
                invariant
                    m <= half,
                    k == levels.len() - 1,
                    half * 2 == levels[k as int].len(),
                    next.len() == m,
                    forall|j: int|
                        0 <= j < m ==> (#[trigger] next[j])@ == pair_digest(
                            k == 0,
                            levels[k as int][2 * j]@,
                            levels[k as int][2 * j + 1]@,
                        ),
                decreases half - m,
            {
                let digest = hash_pair(k == 0, &levels[k][2 * m], &levels[k][2 * m + 1]);
                next.push(digest);
                m += 1;
            }
            let ghost before = levels@;
            levels.push(next);
            proof {
                assert forall|l: int| 0 <= l < levels.len() - 1 implies #[trigger] level_ok(
                    levels@,
                    l,
                ) by {
                    if l < k {
                        assert(level_ok(before, l));
                    }
                }
            }
        }
        proof {
            let k = levels.len() - 1;
            if k < h {
                lemma_pow2_positive((h - k) as nat);
            }
        }
        AccountMerkleTree { levels }
    }
}

/// A sequence of `n` blank leaf digests: the empty byte string each.
pub open spec fn blank_leaves(n: nat) -> Seq<Seq<u8>> {
    Seq::new(n, |i: int| Seq::<u8>::empty())
}

/// The digests of the leaves `leaves`, by position.
pub open spec fn leaf_digests(leaves: Seq<Vec<u8>>) -> Seq<Seq<u8>> {
    Seq::new(leaves.len(), |i: int| leaf_digest(leaves[i]@))
}

/// Whether `n` is two to the power `h` for some `h` up to `MAX_HEIGHT`.
pub open spec fn is_leaf_count(n: nat) -> bool {
    exists|h: nat| h <= MAX_HEIGHT && n == #[trigger] pow2(h)
}

impl AccountMerkleTree {
    /// A tree of the given height in which every leaf is blank.
    pub fn blank(height: usize) -> (r: Result<Self, MerkleError>)
        ensures
            match r {
                Ok(tree) => {
                    &&& height <= MAX_HEIGHT
                    &&& tree.wf()
                    &&& tree.height() == height
                    &&& tree.leaves() == blank_leaves(pow2(height as nat))
                },
                Err(e) => height > MAX_HEIGHT && e == MerkleError::HeightTooLarge,
            },
    {
        if height > MAX_HEIGHT {
            return Err(MerkleError::HeightTooLarge);
        }
        let count = pow2_usize(height);
        let mut digests: Vec<Vec<u8>> = Vec::new();
        let mut i: usize = 0;
        while i < count
            invariant
                i <= count,
                digests.len() == i,
                forall|j: int| 0 <= j < i ==> (#[trigger] digests[j])@ == Seq::<u8>::empty(),
            decreases count - i,
        {
            digests.push(Vec::new());
            i += 1;
        }
        let tree = Self::build(digests, Ghost(height as nat));
        Ok(tree)
    }

    /// A tree over the given leaves, the `i`-th entry being the `i`-th leaf.
    /// Their number has to be a power of two.
    pub fn new(leaves: &Vec<Vec<u8>>) -> (r: Result<Self, MerkleError>)
        ensures
            match r {
                Ok(tree) => {
                    &&& is_leaf_count(leaves.len() as nat)
                    &&& tree.wf()
                    &&& leaves.len() == pow2(tree.height())
                    &&& tree.leaves() == leaf_digests(leaves@)
                },
                Err(e) => !is_leaf_count(leaves.len() as nat) && e
                    == MerkleError::LeafCountNotPowerOfTwo,
            },
    {
        let mut height: usize = 0;
        let mut count: usize = 1;
        while count < leaves.len() && height < MAX_HEIGHT
            invariant
                height <= MAX_HEIGHT,
                count == pow2(height as nat),
                forall|h: nat| h < height ==> #[trigger] pow2(h) != leaves.len(),
            decreases MAX_HEIGHT - height,
        {
            proof {
                lemma_pow2_monotone((height + 1) as nat, MAX_HEIGHT as nat);
                lemma_pow2_max();
                assert forall|h: nat| h < height + 1 implies #[trigger] pow2(h) != leaves.len() by {
                    lemma_pow2_monotone(h, height as nat);
                }
            }
            count = count * 2;
            height += 1;
        }
        if count != leaves.len() {
            proof {
                assert forall|h: nat| h <= MAX_HEIGHT implies #[trigger] pow2(h) != leaves.len() by {
                    if h >= height {
                        lemma_pow2_monotone(height as nat, h);
                    }
                }
            }
            return Err(MerkleError::LeafCountNotPowerOfTwo);
        }
        let mut digests: Vec<Vec<u8>> = Vec::new();
        let mut i: usize = 0;
        while i < leaves.len()
            invariant
                i <= leaves.len(),
                digests.len() == i,
                forall|j: int| 0 <= j < i ==> (#[trigger] digests[j])@ == leaf_digest(leaves[j]@),
            decreases leaves.len() - i,
        {
            let digest = hash_leaf(leaves[i].as_slice()).unwrap();
            digests.push(digest);
            i += 1;
        }
        let tree = Self::build(digests, Ghost(height as nat));
        Ok(tree)
    }

    /// The number of leaves.
    pub fn leaf_count(&self) -> (n: usize)
        requires
            self.wf(),
        ensures
            n == self.leaves().len(),
            n == pow2(self.height()),
    {
        proof {
            self.lemma_leaf_count();
        }
        self.levels[0].len()
    }

    /// The current root digest.
    pub fn root(&self) -> (root: Root)
        requires
            self.wf(),
        ensures
            root@ == merkle_root(self.leaves()),
    {
        proof {
            self.lemma_root_above(0);
            lemma_pow2_positive(0);
        }
        let top = self.levels.len() - 1;
        copy_bytes(&self.levels[top][0])
    }
}

impl AccountMerkleTree {
    /// Replaces the leaf at `index` by `leaf` and recomputes the digests on the
    /// way from that leaf to the root.
    pub fn update(&mut self, index: usize, leaf: &[u8]) -> (r: Result<(), MerkleError>)
        requires
            old(self).wf(),
        ensures
            final(self).wf(),
            final(self).height() == old(self).height(),
            match r {
                Ok(()) => {
                    &&& index < old(self).leaves().len()
                    &&& final(self).leaves() == old(self).leaves().update(
                        index as int,
                        leaf_digest(leaf@),
                    )
                },
                Err(e) => {
                    &&& index >= old(self).leaves().len()
                    &&& e == MerkleError::IndexOutOfRange
                    &&& *final(self) == *old(self)
                },
            },
    {
        if index >= self.levels[0].len() {
            return Err(MerkleError::IndexOutOfRange);
        }
        let top: usize = self.levels.len() - 1;
        let digest = hash_leaf(leaf).unwrap();
        self.levels[0][index] = digest;
        let ghost leaves = old(self).leaves().update(index as int, leaf_digest(leaf@));
        proof {
            let orig = old(self).levels@;
            assert forall|k: int| 0 <= k < top && k != 0 implies #[trigger] level_ok(
                self.levels@,
                k,
            ) by {
                assert(level_ok(orig, k));
            }
            if 0 < top {
                assert(level_ok(orig, 0));
                assert forall|m: int| 0 <= m < self.levels[1].len() && m != index / 2 implies (
                #[trigger] self.levels[1][m])@ == pair_digest(
                    true,
                    self.levels[0][2 * m]@,
                    self.levels[0][2 * m + 1]@,
                ) by {
                    lemma_pow2_positive(top as nat);
                    assert(digests_of(orig[1]@)[m] == level_up(digests_of(orig[0]@), true)[m]);
                }
            }
        }
        let mut l: usize = 0;
        let mut pos: usize = index;
        while l < top
            invariant
                l <= top,
                top == self.levels.len() - 1,
                self.levels.len() == old(self).levels.len(),
                1 <= self.levels.len() <= MAX_HEIGHT + 1,
                forall|k: int|
                    0 <= k < self.levels.len() ==> (#[trigger] self.levels[k]).len() == pow2(
                        (self.levels.len() - 1 - k) as nat,
                    ),
                pos < self.levels[l as int].len(),
                digests_of(self.levels[0]@) == leaves,
                forall|k: int| 0 <= k < top && k != l ==> #[trigger] level_ok(self.levels@, k),
                l < top ==> forall|m: int|
                    0 <= m < self.levels[l + 1].len() && m != pos / 2 ==> (
                    #[trigger] self.levels[l + 1][m])@ == pair_digest(
                        l == 0,
                        self.levels[l as int][2 * m]@,
                        self.levels[l as int][2 * m + 1]@,
                    ),
            decreases top - l,
        {
            proof {
                lemma_pow2_positive((top - l) as nat);
            }
            let parent: usize = pos / 2;
            let digest = hash_pair(l == 0, &self.levels[l][2 * parent], &self.levels[l][2 * parent + 1]);
            let ghost before = self.levels@;
            self.levels[l + 1][parent] = digest;
            proof {
                assert forall|k: int| 0 <= k < top && k != l + 1 implies #[trigger] level_ok(
                    self.levels@,
                    k,
                ) by {
                    if k != l {
                        assert(level_ok(before, k));
                    }
                }
                if l + 1 < top {
                    assert(level_ok(before, l + 1));
                    assert forall|m: int|
                        0 <= m < self.levels[l + 2].len() && m != parent / 2 implies (
                    #[trigger] self.levels[l + 2][m])@ == pair_digest(
                        false,
                        self.levels[l + 1][2 * m]@,
                        self.levels[l + 1][2 * m + 1]@,
                    ) by {
                        lemma_pow2_positive((top - l - 1) as nat);
                        assert(digests_of(before[l + 2]@)[m] == level_up(
                            digests_of(before[l + 1]@),
                            false,
                        )[m]);
                    }
                }
            }
            l += 1;
            pos = parent;
        }
        Ok(())
    }

    /// The inclusion proof of the leaf at `index`: the sibling digests from that
    /// leaf to the root.
    pub fn generate_proof(&self, index: usize) -> (r: Result<Path, MerkleError>)
        requires
            self.wf(),
        ensures
            match r {
                Ok(path) => {
                    &&& index < self.leaves().len()
                    &&& path.leaf_index == index
                    &&& digests_of(path.siblings@) == auth_siblings(self.leaves(), index as int)
                    &&& path.siblings.len() == self.height()
                },
                Err(e) => index >= self.leaves().len() && e == MerkleError::IndexOutOfRange,
            },
    {
        if index >= self.levels[0].len() {
            return Err(MerkleError::IndexOutOfRange);
        }
        let top: usize = self.levels.len() - 1;
        let mut siblings: Vec<Vec<u8>> = Vec::new();
        let mut l: usize = 0;
        let mut pos: usize = index;
        while l < top
            invariant
                self.wf(),
                l <= top,
                top == self.levels.len() - 1,
                pos < self.levels[l as int].len(),
                siblings.len() == l,
                auth_siblings(self.leaves(), index as int) == digests_of(siblings@) + siblings_from(
                    digests_of(self.levels[l as int]@),
                    pos as int,
                    l == 0,
                ),
            decreases top - l,
        {
            proof {
                lemma_pow2_positive((top - l) as nat);
                assert(level_ok(self.levels@, l as int));
            }
            let next: usize = if pos % 2 == 0 {
                pos + 1
            } else {
                pos - 1
            };
            let ghost before = digests_of(siblings@);
            siblings.push(copy_bytes(&self.levels[l][next]));
            proof {
                let level = digests_of(self.levels[l as int]@);
                assert(before + (seq![level[sibling_index(pos as int)]] + siblings_from(
                    level_up(level, l == 0),
                    pos as int / 2,
                    false,
                )) =~= (before + seq![level[sibling_index(pos as int)]]) + siblings_from(
                    level_up(level, l == 0),
                    pos as int / 2,
                    false,
                ));
            }
            l += 1;
            pos = pos / 2;
        }
        proof {
            lemma_pow2_positive(0);
        }
        Ok(Path { leaf_index: index, siblings })
    }
}

impl Path {
    /// Recomputes the way from `leaf` to the root with the siblings of this
    /// proof and compares the digest it reaches to `root`.
    pub fn verify(&self, root: &Root, leaf: &[u8]) -> (ok: bool)
        ensures
            ok == path_accepts(self.leaf_index as int, digests_of(self.siblings@), root@, leaf@),
    {
        let mut cur: Vec<u8> = hash_leaf(leaf).unwrap();
        let mut pos: usize = self.leaf_index;
        let mut k: usize = 0;
        let ghost all = digests_of(self.siblings@);
        assert(all.subrange(0, all.len() as int) =~= all);
        while k < self.siblings.len()
            invariant
                k <= self.siblings.len(),
                all == digests_of(self.siblings@),
                climb(cur@, pos as int, all.subrange(k as int, all.len() as int), k == 0) == climb(
                    leaf_digest(leaf@),
                    self.leaf_index as int,
                    all,
                    true,
                ),
            decreases self.siblings.len() - k,
        {
            let ghost rest = all.subrange(k as int, all.len() as int);
            assert(rest.drop_first() =~= all.subrange(k + 1, all.len() as int));
            cur = if pos % 2 == 0 {
                hash_pair(k == 0, &cur, &self.siblings[k])
            } else {
                hash_pair(k == 0, &self.siblings[k], &cur)
            };
            pos = pos / 2;
            k += 1;
        }
        same_bytes(&cur, root)
    }
}

/// From any leaf of a complete level, its siblings lead to the root above that level.
pub proof fn lemma_climb_reaches_root(level: Seq<Seq<u8>>, h: nat, i: int, bottom: bool)
    requires
        level.len() == pow2(h),
        0 <= i < level.len(),
    ensures
        climb(level[i], i, siblings_from(level, i, bottom), bottom) == root_from(level, bottom),
    decreases h,
{
    lemma_pow2_positive(h);
    if h > 0 {
        let up = level_up(level, bottom);
        let siblings = siblings_from(level, i, bottom);
        assert(siblings.drop_first() =~= siblings_from(up, i / 2, false));
        lemma_climb_reaches_root(up, (h - 1) as nat, i / 2, false);
    }
}

/// Inclusion round trip: once the leaf at `index` of a tree with `2^height`
/// leaves holds the digest of `leaf`, the proof generated for `index` is
/// accepted for `leaf` against the root of those leaves.
pub proof fn lemma_inclusion_round_trip(
    leaves: Seq<Seq<u8>>,
    height: nat,
    index: int,
    leaf: Seq<u8>,
)
    requires
        leaves.len() == pow2(height),
        0 <= index < leaves.len(),
    ensures
        path_accepts(
            index,
            auth_siblings(leaves.update(index, leaf_digest(leaf)), index),
            merkle_root(leaves.update(index, leaf_digest(leaf))),
            leaf,
        ),
{
    lemma_climb_reaches_root(leaves.update(index, leaf_digest(leaf)), height, index, true);
}

/// The two digests that a step of the way up hashes, left one first.
pub open spec fn step_inputs(cur: Seq<u8>, i: int, sibling: Seq<u8>) -> (Seq<u8>, Seq<u8>) {
    if i % 2 == 0 {
        (cur, sibling)
    } else {
        (sibling, cur)
    }
}

/// Whether the hash tells two ways up apart: at every step at which the two
/// ways hash different inputs, they reach different digests. It fails only
/// where the hash maps two different inputs met on these ways to one digest.
pub open spec fn collision_free(
    first: Seq<u8>,
    first_siblings: Seq<Seq<u8>>,
    second: Seq<u8>,
    second_siblings: Seq<Seq<u8>>,
    i: int,
    bottom: bool,
) -> bool
    decreases first_siblings.len(),
{
    if first_siblings.len() == 0 || second_siblings.len() == 0 {
        true
    } else {
        let a = step_inputs(first, i, first_siblings[0]);
        let b = step_inputs(second, i, second_siblings[0]);
        let up_a = pair_digest(bottom, a.0, a.1);
        let up_b = pair_digest(bottom, b.0, b.1);
        &&& a != b ==> up_a != up_b
        &&& collision_free(
            up_a,
            first_siblings.drop_first(),
            up_b,
            second_siblings.drop_first(),
            i / 2,
            false,
        )
    }
}

/// Two ways up from the same position that differ in their start or in a
/// sibling, and that the hash tells apart, do not reach the same digest.
pub proof fn lemma_ways_stay_apart(
    first: Seq<u8>,
    first_siblings: Seq<Seq<u8>>,
    second: Seq<u8>,
    second_siblings: Seq<Seq<u8>>,
    i: int,
    bottom: bool,
)
    requires
        first_siblings.len() == second_siblings.len(),
        first != second || first_siblings != second_siblings,
        collision_free(first, first_siblings, second, second_siblings, i, bottom),
    ensures
        climb(first, i, first_siblings, bottom) != climb(second, i, second_siblings, bottom),
    decreases first_siblings.len(),
{
    if first_siblings.len() == 0 {
        assert(first_siblings =~= second_siblings);
    } else {
        let a = step_inputs(first, i, first_siblings[0]);
        let b = step_inputs(second, i, second_siblings[0]);
        let up_a = pair_digest(bottom, a.0, a.1);
        let up_b = pair_digest(bottom, b.0, b.1);
        if a == b {
            if first_siblings.drop_first() == second_siblings.drop_first() {
                assert(first_siblings =~= seq![first_siblings[0]] + first_siblings.drop_first());
                assert(second_siblings =~= seq![second_siblings[0]]
                    + second_siblings.drop_first());
            }
        }
        lemma_ways_stay_apart(
            up_a,
            first_siblings.drop_first(),
            up_b,
            second_siblings.drop_first(),
            i / 2,
            false,
        );
    }
}

/// Tamper rejection: a proof that is accepted for a leaf against a root is
/// rejected against that root once the leaf was changed to one of another
/// digest, or a sibling digest was changed, as long as the hash tells the
/// changed way up from the accepted one.
pub proof fn lemma_tamper_rejected(
    index: int,
    siblings: Seq<Seq<u8>>,
    root: Seq<u8>,
    leaf: Seq<u8>,
    changed_siblings: Seq<Seq<u8>>,
    changed_leaf: Seq<u8>,
)
    requires
        path_accepts(index, siblings, root, leaf),
        changed_siblings.len() == siblings.len(),
        leaf_digest(changed_leaf) != leaf_digest(leaf) || changed_siblings != siblings,
        collision_free(
            leaf_digest(leaf),
            siblings,
            leaf_digest(changed_leaf),
            changed_siblings,
            index,
            true,
        ),
    ensures
        !path_accepts(index, changed_siblings, root, changed_leaf),
{
    lemma_ways_stay_apart(
        leaf_digest(leaf),
        siblings,
        leaf_digest(changed_leaf),
        changed_siblings,
        index,
        true,
    );
}

} // verus!
