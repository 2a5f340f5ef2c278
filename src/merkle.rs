use vstd::arithmetic::power::lemma_pow0;
use vstd::arithmetic::power2::{lemma_pow2_unfold, pow2};
use vstd::bytes::{spec_u64_to_le_bytes, u64_to_le_bytes};
use crate::state::same_address;
use vstd::prelude::*;

verus! {

/// The SHA-256 digest of a byte string.
pub uninterp spec fn sha256_of(data: Seq<u8>) -> Seq<u8>;

/// Relies on solana_sha256_hasher::hash: the SHA-256 digest of `data`, which
/// depends on those bytes alone.
#[verifier::external_body]
fn sha256(data: &[u8]) -> (r: [u8; 32])
    ensures
        r@ == sha256_of(data@),
{
    solana_sha256_hasher::hash(data).to_bytes()
}

/// A leaf commits to one recipient and the amount owed to it.
pub open spec fn leaf_hash(recipient: Seq<u8>, amount: u64) -> Seq<u8> {
    sha256_of(recipient + spec_u64_to_le_bytes(amount))
}

/// An inner node is the digest of its left child followed by its right child.
pub open spec fn node_hash(left: Seq<u8>, right: Seq<u8>) -> Seq<u8> {
    sha256_of(left + right)
}

/// The node reached from `node` at position `index` by climbing along `proof`,
/// whose first sibling is the one nearest the leaves.
pub open spec fn fold_proof(node: Seq<u8>, proof: Seq<Seq<u8>>, index: nat) -> Seq<u8>
    decreases proof.len(),
{
    if proof.len() == 0 {
        node
    } else {
        let parent = if index % 2 == 0 {
            node_hash(node, proof[0])
        } else {
            node_hash(proof[0], node)
        };
        fold_proof(parent, proof.drop_first(), index / 2)
    }
}

/// Membership: climbing from the leaf along the proof ends at the root.
pub open spec fn proof_verifies(leaf: Seq<u8>, proof: Seq<Seq<u8>>, index: nat, root: Seq<u8>) -> bool {
    fold_proof(leaf, proof, index) == root
}

/// The bytes of each sibling of a proof.
pub open spec fn proof_view(proof: Seq<[u8; 32]>) -> Seq<Seq<u8>> {
    proof.map_values(|p: [u8; 32]| p@)
}

/// Hashes a leaf: `H(recipient || amount as 8 little-endian bytes)`.
pub fn hash_leaf(recipient: &[u8; 32], amount: u64) -> (r: [u8; 32])
    ensures
        r@ == leaf_hash(recipient@, amount),
{
    let mut data: Vec<u8> = Vec::with_capacity(40);
    data.extend_from_slice(recipient.as_slice());
    let amount_bytes = u64_to_le_bytes(amount);
    data.extend_from_slice(amount_bytes.as_slice());
    assert(data@ =~= recipient@ + spec_u64_to_le_bytes(amount));
    sha256(data.as_slice())
}

/// Hashes a pair of nodes, `left` first.
pub fn hash_pair(left: &[u8; 32], right: &[u8; 32]) -> (r: [u8; 32])
    ensures
        r@ == node_hash(left@, right@),
{
    let mut data = [0u8; 64];
    for i in 0..32
        invariant
            forall|j: int| 0 <= j < i ==> data@[j] == left@[j] && data@[32 + j] == right@[j],
    {
        data[i] = left[i];
        data[32 + i] = right[i];
    }
    assert(data@ =~= left@ + right@);
    sha256(data.as_slice())
}

/// Decides whether `leaf` sits at position `index` of the tree with `root`.
pub fn verify_merkle_proof(leaf: [u8; 32], proof: &[[u8; 32]], index: u16, root: [u8; 32]) -> (r: bool)
    ensures
        r == proof_verifies(leaf@, proof_view(proof@), index as nat, root@),
{
    let ghost siblings = proof_view(proof@);
    let mut computed = leaf;
    let mut idx: usize = index as usize;
    let mut i: usize = 0;
    assert(siblings.skip(0) =~= siblings);
    while i < proof.len()
        invariant
            i <= proof@.len(),
            siblings == proof_view(proof@),
            fold_proof(computed@, siblings.skip(i as int), idx as nat) == fold_proof(
                leaf@,
                siblings,
                index as nat,
            ),
        decreases proof@.len() - i,
    {
        let sibling = &proof[i];
        assert(siblings.skip(i as int).drop_first() =~= siblings.skip(i + 1));
        computed = if idx % 2 == 0 {
            hash_pair(&computed, sibling)
        } else {
            hash_pair(sibling, &computed)
        };
        idx = idx / 2;
        i = i + 1;
    }
    assert(siblings.skip(i as int) =~= Seq::<Seq<u8>>::empty());
    same_address(&computed, &root)
}

/// The level above `nodes`: each adjacent pair hashed into its parent.
pub open spec fn parent_level(nodes: Seq<Seq<u8>>) -> Seq<Seq<u8>> {
    Seq::new(nodes.len() / 2, |j: int| node_hash(nodes[2 * j], nodes[2 * j + 1]))
}

/// The root of the complete tree of the given height over `nodes`.
pub open spec fn tree_root(nodes: Seq<Seq<u8>>, height: nat) -> Seq<u8>
    decreases height,
{
    if height == 0 {
        nodes[0]
    } else {
        tree_root(parent_level(nodes), (height - 1) as nat)
    }
}

/// The position that shares a parent with `index`.
pub open spec fn sibling_index(index: int) -> int {
    if index % 2 == 0 {
        index + 1
    } else {
        index - 1
    }
}

/// The proof the tree builder hands out for the node at `index`: its sibling at
/// every level, from the leaves up.
pub open spec fn tree_proof(nodes: Seq<Seq<u8>>, height: nat, index: int) -> Seq<Seq<u8>>
    decreases height,
{
    if height == 0 {
        Seq::empty()
    } else {
        seq![nodes[sibling_index(index)]] + tree_proof(
            parent_level(nodes),
            (height - 1) as nat,
            index / 2,
        )
    }
}

/// A leaf of a complete tree, with the proof the tree builder gives for it,
/// verifies against that tree's root.
pub proof fn lemma_honest_proof_verifies(leaves: Seq<Seq<u8>>, height: nat, index: int)
    requires
        leaves.len() == pow2(height),
        0 <= index < leaves.len(),
    ensures
        proof_verifies(
            leaves[index],
            tree_proof(leaves, height, index),
            index as nat,
            tree_root(leaves, height),
        ),
    decreases height,
{
    if height > 0 {
        lemma_pow2_unfold(height);
        let up = parent_level(leaves);
        let proof = tree_proof(leaves, height, index);
        let rest = tree_proof(up, (height - 1) as nat, index / 2);
        assert(proof.drop_first() =~= rest);
        assert(proof[0] == leaves[sibling_index(index)]);
        lemma_honest_proof_verifies(up, (height - 1) as nat, index / 2);
        if index % 2 == 0 {
            assert(up[index / 2] == node_hash(leaves[index], leaves[index + 1]));
        } else {
            assert(up[index / 2] == node_hash(leaves[index - 1], leaves[index]));
        }
        assert(fold_proof(leaves[index], proof, index as nat) == fold_proof(
            up[index / 2],
            rest,
            (index / 2) as nat,
        ));
    } else {
        lemma_pow0(2);
    }
}

} // verus!
