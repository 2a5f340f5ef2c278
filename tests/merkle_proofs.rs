use veil::merkle::{hash_leaf, hash_pair, verify_merkle_proof};

fn addr(n: u8) -> [u8; 32] {
    [n; 32]
}

fn hex(bytes: &[u8; 32]) -> String {
    bytes.iter().map(|b| format!("{:02x}", b)).collect()
}

/// Four leaves, their two parents and the root.
fn four_leaf_tree() -> ([[u8; 32]; 4], [[u8; 32]; 2], [u8; 32]) {
    let leaves = [
        hash_leaf(&addr(9), 100),
        hash_leaf(&addr(10), 250),
        hash_leaf(&addr(11), 75),
        hash_leaf(&addr(12), 5),
    ];
    let parents = [hash_pair(&leaves[0], &leaves[1]), hash_pair(&leaves[2], &leaves[3])];
    let root = hash_pair(&parents[0], &parents[1]);
    (leaves, parents, root)
}

fn proof_for(leaves: &[[u8; 32]; 4], parents: &[[u8; 32]; 2], index: usize) -> Vec<[u8; 32]> {
    vec![leaves[index ^ 1], parents[(index / 2) ^ 1]]
}

#[test]
fn pair_hash_is_sha256_of_both_halves() {
    let zero = [0u8; 32];
    assert_eq!(
        hex(&hash_pair(&zero, &zero)),
        "f5a5fd42d16a20302798ef6ed309979b43003d2320d9f0e8ea9831a92759fb4b"
    );
}

#[test]
fn pair_hash_depends_on_order() {
    let a = hash_leaf(&addr(1), 1);
    let b = hash_leaf(&addr(2), 1);
    assert_ne!(hash_pair(&a, &b), hash_pair(&b, &a));
}

#[test]
fn leaf_hash_commits_to_recipient_and_amount() {
    let leaf = hash_leaf(&addr(9), 100);
    assert_ne!(leaf, addr(9));
    assert_eq!(leaf, hash_leaf(&addr(9), 100));
    assert_ne!(leaf, hash_leaf(&addr(9), 101));
    assert_ne!(leaf, hash_leaf(&addr(8), 100));
}

#[test]
fn every_honest_leaf_verifies() {
    let (leaves, parents, root) = four_leaf_tree();
    for index in 0..4usize {
        let proof = proof_for(&leaves, &parents, index);
        assert!(verify_merkle_proof(leaves[index], &proof, index as u16, root));
    }
}

#[test]
fn leaf_at_wrong_index_fails() {
    let (leaves, parents, root) = four_leaf_tree();
    let proof = proof_for(&leaves, &parents, 0);
    assert!(!verify_merkle_proof(leaves[0], &proof, 1, root));
}

#[test]
fn flipped_bits_fail() {
    let (leaves, parents, root) = four_leaf_tree();
    let proof = proof_for(&leaves, &parents, 2);
    let mut leaf = leaves[2];
    leaf[0] ^= 1;
    assert!(!verify_merkle_proof(leaf, &proof, 2, root));
    let mut bad_proof = proof.clone();
    bad_proof[1][31] ^= 0x80;
    assert!(!verify_merkle_proof(leaves[2], &bad_proof, 2, root));
    let mut bad_root = root;
    bad_root[5] ^= 4;
    assert!(!verify_merkle_proof(leaves[2], &proof, 2, bad_root));
    let tampered_amount = hash_leaf(&addr(11), 76);
    assert!(!verify_merkle_proof(tampered_amount, &proof, 2, root));
}

#[test]
fn empty_proof_compares_leaf_with_root() {
    let leaf = hash_leaf(&addr(3), 42);
    assert!(verify_merkle_proof(leaf, &[], 0, leaf));
    assert!(!verify_merkle_proof(leaf, &[], 0, addr(3)));
}
