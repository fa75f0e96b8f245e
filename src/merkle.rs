//! Reward-claim membership proofs. A leaf is the digest of the claimant's
//! identity, the amount and the epoch index (both little-endian); each proof
//! step names the side its sibling stands on.
use vstd::prelude::*;
use crate::crypto::{sha256, sha256_of};
use crate::keys::Pubkey;
use crate::state::ProofNode;

verus! {

/// The `n` low bytes of `v`, least significant first.
pub open spec fn le_bytes(v: nat, n: nat) -> Seq<u8>
    decreases n,
{
    if n == 0 {
        Seq::empty()
    } else {
        seq![(v % 256) as u8] + le_bytes(v / 256, (n - 1) as nat)
    }
}

/// The bytes hashed into a leaf.
pub open spec fn leaf_preimage(user: Seq<u8>, amount: u64, index: u64) -> Seq<u8> {
    user + le_bytes(amount as nat, 8) + le_bytes(index as nat, 8)
}

/// The leaf of `user` claiming `amount` in epoch `index`.
pub open spec fn leaf_of(user: Seq<u8>, amount: u64, index: u64) -> Seq<u8> {
    sha256_of(leaf_preimage(user, amount, index))
}

/// The parent of two nodes.
pub open spec fn parent_of(left: Seq<u8>, right: Seq<u8>) -> Seq<u8> {
    sha256_of(left + right)
}

/// One proof step applied to the running node.
pub open spec fn step_of(node: Seq<u8>, step: ProofNode) -> Seq<u8> {
    if step.is_left {
        parent_of(step.sibling@, node)
    } else {
        parent_of(node, step.sibling@)
    }
}

/// The root recomputed from `leaf` by folding in `proof`, first step first.
pub open spec fn fold_proof(leaf: Seq<u8>, proof: Seq<ProofNode>) -> Seq<u8>
    decreases proof.len(),
{
    if proof.len() == 0 {
        leaf
    } else {
        step_of(fold_proof(leaf, proof.drop_last()), proof.last())
    }
}

/// Whether `proof` shows that `user` is owed `amount` in epoch `index` of
/// the tree with root `root`.
pub open spec fn proof_accepted(
    user: Seq<u8>,
    amount: u64,
    index: u64,
    proof: Seq<ProofNode>,
    root: Seq<u8>,
) -> bool {
    fold_proof(leaf_of(user, amount, index), proof) == root
}

/// Appends the eight little-endian bytes of `v`.
pub fn push_le_u64(out: &mut Vec<u8>, v: u64)
    ensures
        final(out)@ == old(out)@ + le_bytes(v as nat, 8),
{
    let mut x: u64 = v;
    let mut i: usize = 0;
    while i < 8
        invariant
            i <= 8,
            old(out)@ + le_bytes(v as nat, 8) == out@ + le_bytes(x as nat, (8 - i) as nat),
        decreases 8 - i,
    {
        let ghost before = out@;
        out.push((x % 256) as u8);
        proof {
            assert(le_bytes(x as nat, (8 - i) as nat) =~= seq![(x % 256) as u8] + le_bytes(
                (x / 256) as nat,
                (8 - i - 1) as nat,
            ));
            assert(before + le_bytes(x as nat, (8 - i) as nat) =~= out@ + le_bytes(
                (x / 256) as nat,
                (8 - i - 1) as nat,
            ));
        }
        x = x / 256;
        i = i + 1;
    }
    assert(le_bytes(x as nat, 0) =~= Seq::<u8>::empty());
    assert(out@ + le_bytes(x as nat, 0) =~= out@);
}

/// Appends all the bytes of `bytes`.
pub fn push_bytes(out: &mut Vec<u8>, bytes: &[u8; 32])
    ensures
        final(out)@ == old(out)@ + bytes@,
{
    let mut i: usize = 0;
    while i < 32
        invariant
            i <= 32,
            bytes@.len() == 32,
            out@ == old(out)@ + bytes@.subrange(0, i as int),
        decreases 32 - i,
    {
        out.push(bytes[i]);
        proof {
            assert(bytes@.subrange(0, i + 1) =~= bytes@.subrange(0, i as int).push(bytes@[i as int]));
        }
        i = i + 1;
    }
    assert(bytes@.subrange(0, 32) =~= bytes@);
}

/// The leaf digest of `user` claiming `amount` in epoch `index`.
pub fn leaf_hash(user: &Pubkey, amount: u64, index: u64) -> (r: [u8; 32])
    ensures
        r@ == leaf_of(user@, amount, index),
{
    let mut data: Vec<u8> = Vec::new();
    push_bytes(&mut data, &user.bytes);
    push_le_u64(&mut data, amount);
    push_le_u64(&mut data, index);
    assert(data@ =~= leaf_preimage(user@, amount, index));
    sha256(data.as_slice())
}

/// The parent digest of `left` and `right`.
pub fn hash_pair(left: &[u8; 32], right: &[u8; 32]) -> (r: [u8; 32])
    ensures
        r@ == parent_of(left@, right@),
{
    let mut data: Vec<u8> = Vec::new();
    push_bytes(&mut data, left);
    push_bytes(&mut data, right);
    assert(data@ =~= left@ + right@);
    sha256(data.as_slice())
}

/// Folds `proof` into `leaf`.
pub fn compute_root(leaf: [u8; 32], proof: &Vec<ProofNode>) -> (r: [u8; 32])
    ensures
        r@ == fold_proof(leaf@, proof@),
{
    let mut node: [u8; 32] = leaf;
    let mut i: usize = 0;
    while i < proof.len()
        invariant
            i <= proof@.len(),
            node@ == fold_proof(leaf@, proof@.subrange(0, i as int)),
        decreases proof.len() - i,
    {
        let step = proof[i];
        proof {
            let next = proof@.subrange(0, i + 1);
            assert(next.drop_last() =~= proof@.subrange(0, i as int));
            assert(next.last() == step);
        }
        if step.is_left {
            node = hash_pair(&step.sibling, &node);
        } else {
            node = hash_pair(&node, &step.sibling);
        }
        i = i + 1;
    }
    assert(proof@.subrange(0, proof@.len() as int) =~= proof@);
    node
}

/// Whether two digests are equal.
pub fn digests_equal(a: &[u8; 32], b: &[u8; 32]) -> (r: bool)
    ensures
        r == (a@ == b@),
{
    let mut i: usize = 0;
    while i < 32
        invariant
            i <= 32,
            a@.len() == 32,
            b@.len() == 32,
            forall|j: int| 0 <= j < i ==> a@[j] == b@[j],
        decreases 32 - i,
    {
        if a[i] != b[i] {
            return false;
        }
        i = i + 1;
    }
    assert(a@ =~= b@);
    true
}

/// Checks a claim of `amount` by `user` in epoch `index` against `root`.
pub fn verify_proof(
    user: &Pubkey,
    amount: u64,
    index: u64,
    proof: &Vec<ProofNode>,
    root: &[u8; 32],
) -> (r: bool)
    ensures
        r == proof_accepted(user@, amount, index, proof@, root@),
{
    let leaf = leaf_hash(user, amount, index);
    let computed = compute_root(leaf, proof);
    digests_equal(&computed, root)
}

} // verus!
