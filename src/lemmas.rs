//! Properties of the vault that hold across operations, proved over the
//! operations' own contracts.
use vstd::prelude::*;
use crate::account_structs::{
    ClaimRewards, CompleteRedeem, Deposit, ExternalProgramMint, Initialize, RequestRedeem,
    UpdateFreezeAdministrators, UpdateRewardsAdministrators,
};
use crate::error::CustomErrorCode;
use crate::keys::Pubkey;
use crate::crypto::sha256_of;
use crate::merkle::{fold_proof, leaf_of, leaf_preimage, parent_of, proof_accepted};
use crate::processor::{has_claim, has_request, request_slot, VaultView};
use crate::state::{ProgramData, ProofNode};

verus! {

/// The deposit-asset balance backing the synthetic asset: the deposit vault
/// and the redemption vault together.
pub open spec fn backing(v: VaultView, vault: usize, redeem: usize) -> int {
    if vault == redeem {
        v.account(vault).amount as int
    } else {
        v.account(vault).amount + v.account(redeem).amount
    }
}

/// A valid deposit succeeds and raises the synthetic supply by exactly
/// `amount` and the vault's deposit-asset balance by exactly `amount`.
/// Valid: a positive amount, the registry live and not paused, each account
/// holding the asset the registry names and not frozen, the vault owned by
/// the recorded vault authority, the caller owning its two accounts and
/// holding `amount` (a delegation to itself must cover it too), the program
/// holding the mint authority, and no balance or supply overflowing. A
/// deposit from the vault account itself is left out: it moves nothing.
pub proof fn lemma_deposit_is_pegged(v: VaultView, ctx: Deposit, amount: u64)
    requires
        v.wf(),
        amount > 0,
        v.config is Some,
        !v.cfg().paused,
        v.has_account(ctx.vault_token_account),
        v.has_account(ctx.user_vault_token_account),
        v.has_account(ctx.user_mint_token_account),
        v.has_asset(ctx.mint),
        ctx.user_vault_token_account != ctx.vault_token_account,
        ctx.user_mint_token_account != ctx.vault_token_account,
        v.account(ctx.vault_token_account).mint == v.cfg().vault,
        v.account(ctx.vault_token_account).owner == v.cfg().vault_authority,
        !v.account(ctx.vault_token_account).frozen,
        v.account(ctx.vault_token_account).amount + amount <= u64::MAX,
        v.asset(ctx.mint).address == v.cfg().mint,
        v.asset(ctx.mint).mint_authority == Some(v.authorities.mint_authority),
        v.asset(ctx.mint).supply + amount <= u64::MAX,
        v.account(ctx.user_vault_token_account).mint == v.cfg().vault,
        v.account(ctx.user_vault_token_account).owner == ctx.signer,
        !v.account(ctx.user_vault_token_account).frozen,
        v.account(ctx.user_vault_token_account).amount >= amount,
        v.account(ctx.user_vault_token_account).delegate == Some(ctx.signer) ==> v.account(
            ctx.user_vault_token_account,
        ).delegated_amount >= amount,
        v.account(ctx.user_mint_token_account).mint == v.cfg().mint,
        v.account(ctx.user_mint_token_account).owner == ctx.signer,
        !v.account(ctx.user_mint_token_account).frozen,
        v.account(ctx.user_mint_token_account).amount + amount <= u64::MAX,
    ensures
        v.deposit_error(ctx, amount) is None,
        v.after_deposit(ctx, amount).asset(ctx.mint).supply == v.asset(ctx.mint).supply + amount,
        v.after_deposit(ctx, amount).account(ctx.vault_token_account).amount == v.account(
            ctx.vault_token_account,
        ).amount + amount,
{
}

/// When the synthetic supply equals the backing held by the two vaults, a
/// deposit keeps it so, as long as the caller's accounts are not the vaults.
pub proof fn lemma_deposit_keeps_peg(v: VaultView, ctx: Deposit, amount: u64, redeem: usize)
    requires
        v.wf(),
        v.deposit_error(ctx, amount) is None,
        v.has_account(redeem),
        v.asset(ctx.mint).supply == backing(v, ctx.vault_token_account, redeem),
        ctx.user_vault_token_account != ctx.vault_token_account,
        ctx.user_vault_token_account != redeem,
        ctx.user_mint_token_account != ctx.vault_token_account,
        ctx.user_mint_token_account != redeem,
    ensures
        v.after_deposit(ctx, amount).asset(ctx.mint).supply == backing(
            v.after_deposit(ctx, amount),
            ctx.vault_token_account,
            redeem,
        ),
{
}

/// When the synthetic supply equals the backing held by the two vaults, a
/// completed redemption keeps it so, as long as the user's accounts are not
/// the vaults.
pub proof fn lemma_complete_redeem_keeps_peg(v: VaultView, ctx: CompleteRedeem, vault: usize)
    requires
        v.wf(),
        v.complete_redeem_error(ctx) is None,
        v.has_account(vault),
        v.asset(ctx.mint).supply == backing(v, vault, ctx.redeem_vault_token_account),
        ctx.user_vault_token_account != vault,
        ctx.user_vault_token_account != ctx.redeem_vault_token_account,
        ctx.user_mint_token_account != vault,
        ctx.user_mint_token_account != ctx.redeem_vault_token_account,
    ensures
        v.after_complete_redeem(ctx).asset(ctx.mint).supply == backing(
            v.after_complete_redeem(ctx),
            vault,
            ctx.redeem_vault_token_account,
        ),
        v.after_complete_redeem(ctx).asset(ctx.mint).supply == v.asset(ctx.mint).supply
            - v.redeem_amount(ctx),
{
}

/// Requesting a redemption moves no balance and no supply: it only grants
/// the delegation, so the backing of the synthetic asset is untouched.
pub proof fn lemma_request_redeem_moves_nothing(
    v: VaultView,
    ctx: RequestRedeem,
    amount: u64,
    vault: usize,
    redeem: usize,
)
    requires
        v.wf(),
        v.request_redeem_error(ctx, amount) is None,
        v.has_account(vault),
        v.has_account(redeem),
    ensures
        v.after_request_redeem(ctx, amount).ledger.mints == v.ledger.mints,
        forall|i: int|
            0 <= i < v.ledger.accounts.len() ==> #[trigger] v.after_request_redeem(
                ctx,
                amount,
            ).ledger.accounts[i].amount == v.ledger.accounts[i].amount,
        backing(v.after_request_redeem(ctx, amount), vault, redeem) == backing(v, vault, redeem),
{
}

/// A request is completed at most once: once completed, completing it
/// again fails because no request of that user exists.
pub proof fn lemma_complete_redeem_once(v: VaultView, ctx: CompleteRedeem, again: CompleteRedeem)
    requires
        v.wf(),
        v.complete_redeem_error(ctx) is None,
        again.user == ctx.user,
    ensures
        v.after_complete_redeem(ctx).complete_redeem_error(again) == Some(
            CustomErrorCode::AccountNotInitialized,
        ),
{
    let w = v.after_complete_redeem(ctx);
    let k = request_slot(v.requests, ctx.user);
    assert(0 <= k < v.requests.len() && v.requests[k].user == ctx.user);
    if has_request(w.requests, ctx.user) {
        let i = choose|i: int| 0 <= i < w.requests.len() && #[trigger] w.requests[i].user == ctx.user;
        let oi = if i < k { i } else { i + 1 };
        assert(w.requests[i] == v.requests[oi]);
        assert(oi != k);
    }
}

/// A user never has two outstanding redemption requests: each user holds
/// at most one, and asking again while one is pending fails.
pub proof fn lemma_one_request_per_user(v: VaultView, ctx: RequestRedeem, amount: u64)
    requires
        v.wf(),
    ensures
        forall|i: int, j: int|
            0 <= i < v.requests.len() && 0 <= j < v.requests.len() && #[trigger] v.requests[i].user
                == ctx.signer && #[trigger] v.requests[j].user == ctx.signer ==> i == j,
        has_request(v.requests, ctx.signer) ==> v.request_redeem_error(ctx, amount) is Some,
{
}

/// In a tree of two leaves, each claimant's proof is the other leaf on the
/// proper side, and it is accepted against the root.
pub proof fn lemma_two_leaf_tree_proofs(
    a: Pubkey,
    amount_a: u64,
    b: Pubkey,
    amount_b: u64,
    index: u64,
    leaf_a: [u8; 32],
    leaf_b: [u8; 32],
)
    requires
        leaf_a@ == leaf_of(a@, amount_a, index),
        leaf_b@ == leaf_of(b@, amount_b, index),
    ensures
        proof_accepted(
            a@,
            amount_a,
            index,
            seq![ProofNode { sibling: leaf_b, is_left: false }],
            parent_of(leaf_a@, leaf_b@),
        ),
        proof_accepted(
            b@,
            amount_b,
            index,
            seq![ProofNode { sibling: leaf_a, is_left: true }],
            parent_of(leaf_a@, leaf_b@),
        ),
{
    let pa = seq![ProofNode { sibling: leaf_b, is_left: false }];
    let pb = seq![ProofNode { sibling: leaf_a, is_left: true }];
    assert(pa.drop_last() =~= Seq::<ProofNode>::empty());
    assert(pb.drop_last() =~= Seq::<ProofNode>::empty());
    assert(fold_proof(leaf_of(a@, amount_a, index), Seq::<ProofNode>::empty()) == leaf_a@);
    assert(fold_proof(leaf_of(b@, amount_b, index), Seq::<ProofNode>::empty()) == leaf_b@);
}

/// Whether `signer`, presenting `program_data`, is the recorded owner of the
/// genuine deployment record and authorized the call.
pub open spec fn is_deployment_owner(
    v: VaultView,
    program_data: ProgramData,
    signer: Pubkey,
    signed: bool,
) -> bool {
    &&& program_data.address == v.authorities.program_data
    &&& program_data.upgrade_authority == Some(signer)
    &&& signed
}

/// Administrator sets change only at the deployment owner's hand: any other
/// caller fails, administrator or not, whatever set it proposes.
pub proof fn lemma_only_owner_updates_administrators(
    v: VaultView,
    freeze: UpdateFreezeAdministrators,
    rewards: UpdateRewardsAdministrators,
    new_administrators: Seq<Pubkey>,
)
    requires
        !is_deployment_owner(v, freeze.program_data, freeze.signer, freeze.signed),
        !is_deployment_owner(v, rewards.program_data, rewards.signer, rewards.signed),
    ensures
        v.update_freeze_administrators_error(freeze, new_administrators) is Some,
        v.update_rewards_administrators_error(rewards, new_administrators) is Some,
{
}

/// A frozen account cannot send, and thawing it after a freeze gives back
/// the vault exactly as it was, so its transfers behave as before.
pub proof fn lemma_freeze_then_thaw_restores(
    v: VaultView,
    signer: Pubkey,
    token_account: usize,
    mint: usize,
    to: int,
    authority: Pubkey,
    amount: u64,
)
    requires
        v.wf(),
        v.set_frozen_error(signer, token_account, mint, true) is None,
        v.ledger.has_account(to),
    ensures
        v.after_set_frozen(token_account, true).ledger.transfer_error(
            token_account as int,
            to,
            authority,
            amount,
        ) == Some(CustomErrorCode::AccountFrozen),
        v.after_set_frozen(token_account, true).set_frozen_error(signer, token_account, mint, false)
            is None,
        v.after_set_frozen(token_account, true).after_set_frozen(token_account, false) == v,
{
    let w = v.after_set_frozen(token_account, true);
    let back = w.after_set_frozen(token_account, false);
    assert(back.ledger.accounts =~= v.ledger.accounts);
    assert(back.ledger == v.ledger);
}

/// Whether SHA-256 has no collision at all.
pub open spec fn sha256_injective() -> bool {
    forall|x: Seq<u8>, y: Seq<u8>| #[trigger] sha256_of(x) == #[trigger] sha256_of(y) ==> x == y
}

/// When the claim's accounts are in order and the mint can take the amount,
/// the claim succeeds exactly when the proof leads from the claimant's leaf
/// to the epoch's root and the claimant has not claimed that epoch yet.
pub proof fn lemma_claim_succeeds_iff_proven_and_unclaimed(
    v: VaultView,
    ctx: ClaimRewards,
    amount: u64,
    proof: Seq<ProofNode>,
)
    requires
        v.claim_accounts_error(ctx, amount) is None,
        v.ledger.mint_to_error(
            ctx.mint as int,
            ctx.user_mint_token_account as int,
            v.authorities.mint_authority,
            amount,
        ) is None,
    ensures
        v.claim_rewards_error(ctx, amount, proof) is None <==> (proof_accepted(
            ctx.user@,
            amount,
            v.claimed_epoch(ctx).index,
            proof,
            v.claimed_epoch(ctx).merkle_root@,
        ) && !has_claim(v.claims, v.claimed_epoch(ctx).index, ctx.user)),
{
}

/// Without SHA-256 collisions, two leaves that fold to one root under one
/// proof are the same leaf.
pub proof fn lemma_fold_proof_injective(l1: Seq<u8>, l2: Seq<u8>, proof: Seq<ProofNode>)
    requires
        sha256_injective(),
        fold_proof(l1, proof) == fold_proof(l2, proof),
    ensures
        l1 == l2,
    decreases proof.len(),
{
    if proof.len() > 0 {
        let rest = proof.drop_last();
        let step = proof.last();
        let n1 = fold_proof(l1, rest);
        let n2 = fold_proof(l2, rest);
        let s = step.sibling@;
        if step.is_left {
            assert(sha256_of(s + n1) == sha256_of(s + n2));
            assert(s + n1 == s + n2);
            assert(n1 =~= (s + n1).subrange(s.len() as int, (s + n1).len() as int));
            assert(n2 =~= (s + n2).subrange(s.len() as int, (s + n2).len() as int));
        } else {
            assert(sha256_of(n1 + s) == sha256_of(n2 + s));
            assert(n1 + s == n2 + s);
            assert((n1 + s).len() == n1.len() + s.len());
            assert((n2 + s).len() == n2.len() + s.len());
            assert(n1.len() == n2.len());
            assert(n1 =~= (n1 + s).subrange(0, n1.len() as int));
            assert(n2 =~= (n2 + s).subrange(0, n2.len() as int));
        }
        lemma_fold_proof_injective(l1, l2, rest);
    }
}

/// Without SHA-256 collisions a proof binds its claimant: a proof that
/// lets one user claim an amount of an epoch is refused, as an invalid
/// proof, for any other user whose accounts are in order.
pub proof fn lemma_proof_binds_claimant(
    v: VaultView,
    a: ClaimRewards,
    b: ClaimRewards,
    amount: u64,
    proof: Seq<ProofNode>,
)
    requires
        sha256_injective(),
        v.wf(),
        v.claim_rewards_error(a, amount, proof) is None,
        b.epoch == a.epoch,
        b.user != a.user,
        v.claim_accounts_error(b, amount) is None,
    ensures
        v.claim_rewards_error(b, amount, proof) == Some(CustomErrorCode::InvalidMerkleProof),
{
    let e = v.claimed_epoch(a);
    assert(v.claimed_epoch(b) == e);
    if proof_accepted(b.user@, amount, e.index, proof, e.merkle_root@) {
        lemma_fold_proof_injective(leaf_of(a.user@, amount, e.index), leaf_of(b.user@, amount, e.index), proof);
        let pa = leaf_preimage(a.user@, amount, e.index);
        let pb = leaf_preimage(b.user@, amount, e.index);
        assert(pa == pb);
        assert(a.user@ =~= pa.subrange(0, 32));
        assert(b.user@ =~= pb.subrange(0, 32));
        vstd::array::axiom_array_ext_equal(a.user.bytes, b.user.bytes);
        assert(a.user == b.user);
    }
}

/// Freezing or thawing fails whenever the asset's freeze capability is not
/// held by the program's freeze authority; with the registry live and both
/// handles known, it fails for exactly that reason, whoever asks.
pub proof fn lemma_freeze_needs_freeze_authority(
    v: VaultView,
    signer: Pubkey,
    token_account: usize,
    mint: usize,
    frozen: bool,
)
    requires
        v.asset(mint).freeze_authority != Some(v.authorities.freeze_authority),
    ensures
        v.set_frozen_error(signer, token_account, mint, frozen) is Some,
        v.config is Some && v.has_account(token_account) && v.has_asset(mint) ==> v.set_frozen_error(
            signer,
            token_account,
            mint,
            frozen,
        ) == Some(CustomErrorCode::InvalidFreezeAuthority),
{
}

/// A registry with up to five freeze and five rewards administrators is
/// created when the vault accounts hold the deposit asset and the
/// redemption vault belongs to the caller (and can be handed over) or
/// already to the redeem-vault authority; it records both sets as given.
pub proof fn lemma_initialize_accepts_up_to_five(
    v: VaultView,
    ctx: Initialize,
    vault_mint: Pubkey,
    mint: Pubkey,
    freeze_administrators: Seq<Pubkey>,
    rewards_administrators: Seq<Pubkey>,
)
    requires
        v.config is None,
        freeze_administrators.len() <= 5,
        rewards_administrators.len() <= 5,
        v.has_account(ctx.vault_token_account),
        v.has_account(ctx.redeem_vault_token_account),
        v.account(ctx.vault_token_account).mint == vault_mint,
        v.account(ctx.redeem_vault_token_account).mint == vault_mint,
        v.account(ctx.redeem_vault_token_account).owner == ctx.signer || v.account(
            ctx.redeem_vault_token_account,
        ).owner == v.authorities.redeem_vault_authority,
        v.account(ctx.redeem_vault_token_account).owner == ctx.signer ==> !v.account(
            ctx.redeem_vault_token_account,
        ).frozen,
    ensures
        v.initialize_error(ctx, vault_mint, freeze_administrators, rewards_administrators) is None,
        v.after_initialize(
            ctx,
            vault_mint,
            mint,
            freeze_administrators,
            rewards_administrators,
        ).cfg().freeze_administrators == freeze_administrators,
        v.after_initialize(
            ctx,
            vault_mint,
            mint,
            freeze_administrators,
            rewards_administrators,
        ).cfg().rewards_administrators == rewards_administrators,
{
}

/// A zero amount is rejected by every operation that takes an amount.
pub proof fn lemma_zero_amount_rejected(
    v: VaultView,
    deposit: Deposit,
    request: RequestRedeem,
    claim: ClaimRewards,
    proof: Seq<ProofNode>,
    external: ExternalProgramMint,
)
    ensures
        v.deposit_error(deposit, 0) == Some(CustomErrorCode::InvalidAmount),
        v.request_redeem_error(request, 0) == Some(CustomErrorCode::InvalidAmount),
        v.claim_rewards_error(claim, 0, proof) == Some(CustomErrorCode::InvalidAmount),
        v.external_program_mint_error(external, 0) == Some(CustomErrorCode::InvalidAmount),
{
}

/// Administrator sets of more than five members are refused by creation and
/// by both updates; up to five pass the size check, and an update by the
/// owner then succeeds.
pub proof fn lemma_administrator_set_bound(
    v: VaultView,
    init: Initialize,
    vault_mint: Pubkey,
    freeze: UpdateFreezeAdministrators,
    rewards: UpdateRewardsAdministrators,
    set: Seq<Pubkey>,
    other: Seq<Pubkey>,
)
    requires
        other.len() <= 5,
    ensures
        set.len() > 5 ==> v.initialize_error(init, vault_mint, set, other) is Some,
        set.len() > 5 ==> v.initialize_error(init, vault_mint, other, set) is Some,
        set.len() > 5 ==> v.update_freeze_administrators_error(freeze, set) is Some,
        set.len() > 5 ==> v.update_rewards_administrators_error(rewards, set) is Some,
        set.len() <= 5 ==> v.initialize_error(init, vault_mint, set, other) != Some(
            CustomErrorCode::TooManyAdministrators,
        ),
        set.len() <= 5 && v.owner_error(freeze.program_data, freeze.signer, freeze.signed) is None
            ==> v.update_freeze_administrators_error(freeze, set) is None,
        set.len() <= 5 && v.owner_error(rewards.program_data, rewards.signer, rewards.signed) is None
            ==> v.update_rewards_administrators_error(rewards, set) is None,
{
}

} // verus!
