use sol_vault_mint::account_structs::{
    ClaimRewards, CompleteRedeem, CreateRewardsEpoch, Deposit, ExternalProgramMint,
    FreezeTokenAccount, Initialize, Pause, RequestRedeem, ThawTokenAccount,
    UpdateExternalMintCaller, UpdateFreezeAdministrators, UpdateRewardsAdministrators,
};
use sol_vault_mint::error::CustomErrorCode;
use sol_vault_mint::keys::Pubkey;
use sol_vault_mint::ledger::{Ledger, MintAccount, TokenAccount};
use sol_vault_mint::merkle::{hash_pair, leaf_hash};
use sol_vault_mint::processor::Vault;
use sol_vault_mint::state::{ProgramData, ProofNode};

fn key(b: u8) -> Pubkey {
    Pubkey::new_from_array([b; 32])
}

const OWNER: u8 = 1;
const ALICE: u8 = 2;
const BOB: u8 = 3;
const FREEZE_ADMIN: u8 = 4;
const REWARDS_ADMIN: u8 = 5;
const VAULT_OWNER: u8 = 6;
const USDC: u8 = 10;
const WYLDS: u8 = 11;
const PROGRAM: u8 = 200;

fn account(address: u8, mint: u8, owner: u8, amount: u64) -> TokenAccount {
    TokenAccount {
        address: key(address),
        mint: key(mint),
        owner: key(owner),
        amount,
        frozen: false,
        delegate: None,
        delegated_amount: 0,
    }
}

struct Setup {
    vault: Vault,
    wylds: usize,
    vault_acct: usize,
    redeem_acct: usize,
    alice_usdc: usize,
    alice_wylds: usize,
    bob_usdc: usize,
    bob_wylds: usize,
}

fn fresh() -> Setup {
    let mut ledger = Ledger::new();
    ledger.add_mint(MintAccount {
        address: key(USDC),
        supply: 1_000_000,
        mint_authority: None,
        freeze_authority: None,
    });
    let wylds = ledger.add_mint(MintAccount {
        address: key(WYLDS),
        supply: 0,
        mint_authority: None,
        freeze_authority: None,
    });
    let vault_acct = ledger.add_account(account(20, USDC, VAULT_OWNER, 0));
    let redeem_acct = ledger.add_account(account(21, USDC, OWNER, 0));
    let alice_usdc = ledger.add_account(account(22, USDC, ALICE, 1_000));
    let alice_wylds = ledger.add_account(account(23, WYLDS, ALICE, 0));
    let bob_usdc = ledger.add_account(account(24, USDC, BOB, 1_000));
    let bob_wylds = ledger.add_account(account(25, WYLDS, BOB, 0));
    let mut vault = Vault::new(key(PROGRAM), ledger).unwrap();
    vault.ledger.mints[wylds].mint_authority = Some(vault.authorities.mint_authority);
    vault.ledger.mints[wylds].freeze_authority = Some(vault.authorities.freeze_authority);
    Setup { vault, wylds, vault_acct, redeem_acct, alice_usdc, alice_wylds, bob_usdc, bob_wylds }
}

fn init_ctx(s: &Setup) -> Initialize {
    Initialize {
        signer: key(OWNER),
        vault_token_account: s.vault_acct,
        redeem_vault_token_account: s.redeem_acct,
    }
}

fn setup() -> Setup {
    let mut s = fresh();
    let ctx = init_ctx(&s);
    s.vault
        .initialize(&ctx, key(USDC), key(WYLDS), vec![key(FREEZE_ADMIN)], vec![key(REWARDS_ADMIN)])
        .unwrap();
    s
}

fn deposit_ctx(s: &Setup) -> Deposit {
    Deposit {
        signer: key(ALICE),
        vault_token_account: s.vault_acct,
        mint: s.wylds,
        user_vault_token_account: s.alice_usdc,
        user_mint_token_account: s.alice_wylds,
    }
}

fn request_ctx(s: &Setup) -> RequestRedeem {
    RequestRedeem {
        signer: key(ALICE),
        user_mint_token_account: s.alice_wylds,
        mint: s.wylds,
        redeem_vault_reserve: 1_000_000,
    }
}

fn complete_ctx(s: &Setup) -> CompleteRedeem {
    CompleteRedeem {
        admin: key(REWARDS_ADMIN),
        user: key(ALICE),
        user_mint_token_account: s.alice_wylds,
        user_vault_token_account: s.alice_usdc,
        redeem_vault_token_account: s.redeem_acct,
        mint: s.wylds,
    }
}

fn genuine_record(s: &Setup) -> ProgramData {
    ProgramData { address: s.vault.authorities.program_data, upgrade_authority: Some(key(OWNER)) }
}

fn owner_ctx(s: &Setup, signer: u8) -> UpdateFreezeAdministrators {
    UpdateFreezeAdministrators { program_data: genuine_record(s), signer: key(signer), signed: true }
}

fn balance(s: &Setup, a: usize) -> u64 {
    s.vault.ledger.accounts[a].amount
}

fn supply(s: &Setup) -> u64 {
    s.vault.ledger.mints[s.wylds].supply
}

/// Moves deposit asset into the redemption vault, as an operator would.
fn fund_redeem_vault(s: &mut Setup, amount: u64) {
    let owner = s.vault.ledger.accounts[s.vault_acct].owner;
    s.vault.ledger.transfer(s.vault_acct, s.redeem_acct, &owner, amount).unwrap();
}

#[test]
fn derived_authorities_are_distinct_and_deterministic() {
    let s = fresh();
    let a = s.vault.authorities;
    assert!(!a.mint_authority.same_as(&key(PROGRAM)));
    assert!(!a.mint_authority.same_as(&a.freeze_authority));
    assert!(!a.freeze_authority.same_as(&a.redeem_vault_authority));
    assert!(!a.program_data.same_as(&key(PROGRAM)));
    let again = Vault::new(key(PROGRAM), Ledger::new()).unwrap();
    assert_eq!(again.authorities.mint_authority.bytes, a.mint_authority.bytes);
    assert_eq!(again.authorities.program_data.bytes, a.program_data.bytes);
    let other = Vault::new(key(PROGRAM + 1), Ledger::new()).unwrap();
    assert!(!other.authorities.mint_authority.same_as(&a.mint_authority));
}

#[test]
fn deployment_record_is_derived_under_upgradeable_loader() {
    let s = fresh();
    let loader: [u8; 32] = [
        2, 168, 246, 145, 78, 136, 161, 176, 226, 16, 21, 62, 247, 99, 174, 43, 0, 194, 185, 61, 22,
        193, 36, 210, 192, 83, 122, 16, 4, 128, 0, 0,
    ];
    assert_eq!(s.vault.authorities.loader_id.bytes, loader);
    assert!(!s.vault.authorities.program_data.same_as(&s.vault.authorities.loader_id));
}

#[test]
fn leaf_hash_is_sha256_of_user_amount_index() {
    let expected: [u8; 32] = [
        207, 135, 173, 190, 153, 68, 89, 187, 194, 9, 44, 30, 158, 46, 77, 234, 0, 245, 210, 203,
        109, 211, 182, 1, 106, 135, 31, 169, 231, 236, 98, 39,
    ];
    assert_eq!(leaf_hash(&key(7), 100, 3), expected);
}

#[test]
fn hash_pair_is_sha256_of_concatenation() {
    let expected: [u8; 32] = [
        248, 24, 175, 211, 122, 109, 195, 188, 146, 251, 68, 115, 16, 17, 39, 112, 6, 219, 78, 250,
        110, 144, 35, 205, 116, 104, 192, 35, 53, 210, 42, 77,
    ];
    assert_eq!(hash_pair(&[1u8; 32], &[2u8; 32]), expected);
    assert_ne!(hash_pair(&[2u8; 32], &[1u8; 32]), expected);
}

#[test]
fn initialize_records_registry_and_hands_redeem_vault_to_authority() {
    let s = setup();
    let c = s.vault.config.as_ref().unwrap();
    assert_eq!(c.vault.bytes, key(USDC).bytes);
    assert_eq!(c.mint.bytes, key(WYLDS).bytes);
    assert_eq!(c.vault_authority.bytes, key(VAULT_OWNER).bytes);
    assert_eq!(c.redeem_vault.bytes, key(21).bytes);
    assert!(!c.paused);
    assert_eq!(
        s.vault.ledger.accounts[s.redeem_acct].owner.bytes,
        s.vault.authorities.redeem_vault_authority.bytes
    );
}

#[test]
fn initialize_twice_fails() {
    let mut s = setup();
    let ctx = init_ctx(&s);
    assert_eq!(
        s.vault.initialize(&ctx, key(USDC), key(WYLDS), vec![], vec![]),
        Err(CustomErrorCode::AccountAlreadyInUse)
    );
}

#[test]
fn initialize_rejects_foreign_redeem_vault_owner() {
    let mut s = fresh();
    s.vault.ledger.accounts[s.redeem_acct].owner = key(BOB);
    let ctx = init_ctx(&s);
    assert_eq!(
        s.vault.initialize(&ctx, key(USDC), key(WYLDS), vec![], vec![]),
        Err(CustomErrorCode::InvalidAuthority)
    );
    assert!(s.vault.config.is_none());
}

#[test]
fn initialize_rejects_vault_of_other_asset() {
    let mut s = fresh();
    let ctx = init_ctx(&s);
    assert_eq!(
        s.vault.initialize(&ctx, key(WYLDS), key(WYLDS), vec![], vec![]),
        Err(CustomErrorCode::InvalidMint)
    );
}

#[test]
fn deposit_mints_one_to_one() {
    let mut s = setup();
    let ctx = deposit_ctx(&s);
    let ev = s.vault.deposit(&ctx, 400).unwrap();
    assert_eq!(ev.amount, 400);
    assert_eq!(ev.user.bytes, key(ALICE).bytes);
    assert_eq!(supply(&s), 400);
    assert_eq!(balance(&s, s.vault_acct), 400);
    assert_eq!(balance(&s, s.alice_usdc), 600);
    assert_eq!(balance(&s, s.alice_wylds), 400);
}

#[test]
fn deposit_then_redeem_keeps_supply_equal_to_backing() {
    let mut s = setup();
    let ctx = deposit_ctx(&s);
    s.vault.deposit(&ctx, 400).unwrap();
    let bob = Deposit {
        signer: key(BOB),
        user_vault_token_account: s.bob_usdc,
        user_mint_token_account: s.bob_wylds,
        ..ctx
    };
    s.vault.deposit(&bob, 100).unwrap();
    fund_redeem_vault(&mut s, 300);
    let backing = |s: &Setup| balance(s, s.vault_acct) + balance(s, s.redeem_acct);
    assert_eq!(supply(&s), backing(&s));
    let req = request_ctx(&s);
    s.vault.request_redeem(&req, 250).unwrap();
    assert_eq!(supply(&s), backing(&s));
    let done = complete_ctx(&s);
    let ev = s.vault.complete_redeem(&done).unwrap();
    assert_eq!(ev.amount, 250);
    assert_eq!(supply(&s), 250);
    assert_eq!(supply(&s), backing(&s));
    assert_eq!(balance(&s, s.alice_usdc), 850);
    assert_eq!(balance(&s, s.alice_wylds), 150);
}

#[test]
fn deposit_rejects_substituted_vault() {
    let mut s = setup();
    s.vault.ledger.accounts[s.vault_acct].owner = key(BOB);
    let ctx = deposit_ctx(&s);
    assert_eq!(s.vault.deposit(&ctx, 10).unwrap_err(), CustomErrorCode::InvalidVaultAuthority);
    assert_eq!(supply(&s), 0);
}

#[test]
fn deposit_beyond_balance_leaves_everything_unchanged() {
    let mut s = setup();
    let ctx = deposit_ctx(&s);
    assert_eq!(s.vault.deposit(&ctx, 1_001).unwrap_err(), CustomErrorCode::InsufficientFunds);
    assert_eq!(balance(&s, s.alice_usdc), 1_000);
    assert_eq!(supply(&s), 0);
}

#[test]
fn deposit_from_account_of_other_asset_fails() {
    let mut s = setup();
    let ctx = Deposit { user_vault_token_account: s.alice_wylds, ..deposit_ctx(&s) };
    assert_eq!(s.vault.deposit(&ctx, 10).unwrap_err(), CustomErrorCode::InvalidVaultMint);
}

#[test]
fn deposit_needs_signer_to_own_accounts() {
    let mut s = setup();
    let ctx = Deposit { signer: key(BOB), ..deposit_ctx(&s) };
    assert_eq!(s.vault.deposit(&ctx, 10).unwrap_err(), CustomErrorCode::InvalidTokenOwner);
}

#[test]
fn deposit_needs_mint_authority_held_by_program() {
    let mut s = setup();
    s.vault.ledger.mints[s.wylds].mint_authority = Some(key(BOB));
    let ctx = deposit_ctx(&s);
    assert_eq!(s.vault.deposit(&ctx, 10).unwrap_err(), CustomErrorCode::InvalidMintAuthority);
}

#[test]
fn complete_redeem_twice_fails() {
    let mut s = setup();
    let ctx = deposit_ctx(&s);
    s.vault.deposit(&ctx, 100).unwrap();
    fund_redeem_vault(&mut s, 100);
    let req = request_ctx(&s);
    s.vault.request_redeem(&req, 100).unwrap();
    let done = complete_ctx(&s);
    s.vault.complete_redeem(&done).unwrap();
    assert!(s.vault.find_request(&key(ALICE)).is_none());
    assert_eq!(s.vault.complete_redeem(&done).unwrap_err(), CustomErrorCode::AccountNotInitialized);
}

#[test]
fn second_request_while_pending_fails() {
    let mut s = setup();
    let ctx = deposit_ctx(&s);
    s.vault.deposit(&ctx, 100).unwrap();
    let req = request_ctx(&s);
    s.vault.request_redeem(&req, 40).unwrap();
    assert_eq!(s.vault.request_redeem(&req, 10).unwrap_err(), CustomErrorCode::AccountAlreadyInUse);
    assert_eq!(s.vault.requests.len(), 1);
    assert_eq!(s.vault.requests[0].amount, 40);
}

#[test]
fn request_redeem_records_delegation() {
    let mut s = setup();
    let ctx = deposit_ctx(&s);
    s.vault.deposit(&ctx, 100).unwrap();
    let req = request_ctx(&s);
    let ev = s.vault.request_redeem(&req, 60).unwrap();
    assert_eq!(ev.amount, 60);
    let acct = s.vault.ledger.accounts[s.alice_wylds];
    assert_eq!(acct.delegated_amount, 60);
    assert_eq!(acct.delegate.unwrap().bytes, s.vault.authorities.redeem_vault_authority.bytes);
}

#[test]
fn request_redeem_beyond_balance_fails() {
    let mut s = setup();
    let ctx = deposit_ctx(&s);
    s.vault.deposit(&ctx, 100).unwrap();
    let req = request_ctx(&s);
    assert_eq!(s.vault.request_redeem(&req, 101).unwrap_err(), CustomErrorCode::InsufficientBalance);
}

#[test]
fn request_redeem_needs_reserve() {
    let mut s = setup();
    let ctx = deposit_ctx(&s);
    s.vault.deposit(&ctx, 100).unwrap();
    let req = RequestRedeem { redeem_vault_reserve: 100_000, ..request_ctx(&s) };
    assert_eq!(
        s.vault.request_redeem(&req, 10).unwrap_err(),
        CustomErrorCode::InsufficientRedeemVaultFunds
    );
    let req = RequestRedeem { redeem_vault_reserve: 100_001, ..req };
    assert!(s.vault.request_redeem(&req, 10).is_ok());
}

#[test]
fn complete_redeem_pays_what_user_still_holds() {
    let mut s = setup();
    let ctx = deposit_ctx(&s);
    s.vault.deposit(&ctx, 100).unwrap();
    fund_redeem_vault(&mut s, 100);
    let req = request_ctx(&s);
    s.vault.request_redeem(&req, 80).unwrap();
    let alice = key(ALICE);
    s.vault.ledger.transfer(s.alice_wylds, s.bob_wylds, &alice, 70).unwrap();
    let done = complete_ctx(&s);
    let ev = s.vault.complete_redeem(&done).unwrap();
    assert_eq!(ev.amount, 30);
    assert_eq!(balance(&s, s.alice_wylds), 0);
    assert_eq!(balance(&s, s.alice_usdc), 930);
    assert_eq!(supply(&s), 70);
}

#[test]
fn complete_redeem_needs_rewards_administrator() {
    let mut s = setup();
    let ctx = deposit_ctx(&s);
    s.vault.deposit(&ctx, 100).unwrap();
    fund_redeem_vault(&mut s, 100);
    let req = request_ctx(&s);
    s.vault.request_redeem(&req, 50).unwrap();
    let done = CompleteRedeem { admin: key(FREEZE_ADMIN), ..complete_ctx(&s) };
    assert_eq!(
        s.vault.complete_redeem(&done).unwrap_err(),
        CustomErrorCode::InvalidRewardsAdministrator
    );
    assert!(s.vault.find_request(&key(ALICE)).is_some());
}

#[test]
fn complete_redeem_needs_vault_funds() {
    let mut s = setup();
    let ctx = deposit_ctx(&s);
    s.vault.deposit(&ctx, 100).unwrap();
    fund_redeem_vault(&mut s, 49);
    let req = request_ctx(&s);
    s.vault.request_redeem(&req, 50).unwrap();
    let done = complete_ctx(&s);
    assert_eq!(s.vault.complete_redeem(&done).unwrap_err(), CustomErrorCode::InsufficientVaultBalance);
    assert_eq!(balance(&s, s.alice_wylds), 100);
}

#[test]
fn complete_redeem_of_emptied_holding_fails() {
    let mut s = setup();
    let ctx = deposit_ctx(&s);
    s.vault.deposit(&ctx, 100).unwrap();
    fund_redeem_vault(&mut s, 100);
    let req = request_ctx(&s);
    s.vault.request_redeem(&req, 50).unwrap();
    let alice = key(ALICE);
    s.vault.ledger.transfer(s.alice_wylds, s.bob_wylds, &alice, 100).unwrap();
    let done = complete_ctx(&s);
    assert_eq!(s.vault.complete_redeem(&done).unwrap_err(), CustomErrorCode::InvalidAmount);
}

fn two_leaf_epoch(s: &mut Setup) -> ([u8; 32], [u8; 32]) {
    let l0 = leaf_hash(&key(ALICE), 100, 0);
    let l1 = leaf_hash(&key(BOB), 50, 0);
    let root = hash_pair(&l0, &l1);
    let admin = CreateRewardsEpoch { admin: key(REWARDS_ADMIN) };
    s.vault.create_rewards_epoch(&admin, 0, root, 150, 1_700_000_000).unwrap();
    (l0, l1)
}

fn claim_ctx(s: &Setup, user: u8, account: usize) -> ClaimRewards {
    ClaimRewards { user: key(user), epoch: 0, mint: s.wylds, user_mint_token_account: account }
}

#[test]
fn two_leaf_merkle_claim() {
    let mut s = setup();
    let (l0, l1) = two_leaf_epoch(&mut s);
    let alice = claim_ctx(&s, ALICE, s.alice_wylds);
    let proof = vec![ProofNode { sibling: l1, is_left: false }];
    let ev = s.vault.claim_rewards(&alice, 100, proof.clone()).unwrap();
    assert_eq!(ev.amount, 100);
    assert_eq!(ev.epoch, 0);
    assert_eq!(balance(&s, s.alice_wylds), 100);
    assert_eq!(supply(&s), 100);
    assert_eq!(
        s.vault.claim_rewards(&alice, 100, proof.clone()).unwrap_err(),
        CustomErrorCode::RewardsAlreadyClaimed
    );
    assert_eq!(
        s.vault.claim_rewards(&alice, 101, proof).unwrap_err(),
        CustomErrorCode::InvalidMerkleProof
    );
    assert_eq!(supply(&s), 100);
    let bob = claim_ctx(&s, BOB, s.bob_wylds);
    let bob_proof = vec![ProofNode { sibling: l0, is_left: true }];
    s.vault.claim_rewards(&bob, 50, bob_proof).unwrap();
    assert_eq!(balance(&s, s.bob_wylds), 50);
}

#[test]
fn merkle_claim_with_wrong_side_fails() {
    let mut s = setup();
    let (_, l1) = two_leaf_epoch(&mut s);
    let alice = claim_ctx(&s, ALICE, s.alice_wylds);
    let proof = vec![ProofNode { sibling: l1, is_left: true }];
    assert_eq!(
        s.vault.claim_rewards(&alice, 100, proof).unwrap_err(),
        CustomErrorCode::InvalidMerkleProof
    );
    assert!(!s.vault.is_claimed(0, &key(ALICE)));
}

#[test]
fn claim_of_unknown_epoch_fails() {
    let mut s = setup();
    let alice = claim_ctx(&s, ALICE, s.alice_wylds);
    assert_eq!(
        s.vault.claim_rewards(&alice, 100, vec![]).unwrap_err(),
        CustomErrorCode::InvalidRewardsEpoch
    );
}

#[test]
fn epoch_index_is_used_once() {
    let mut s = setup();
    two_leaf_epoch(&mut s);
    let admin = CreateRewardsEpoch { admin: key(REWARDS_ADMIN) };
    assert_eq!(
        s.vault.create_rewards_epoch(&admin, 0, [0u8; 32], 0, 5),
        Err(CustomErrorCode::AccountAlreadyInUse)
    );
    assert_eq!(s.vault.epochs[0].total, 150);
    assert_eq!(s.vault.epochs[0].created_ts, 1_700_000_000);
    assert!(s.vault.create_rewards_epoch(&admin, 1, [0u8; 32], 0, 5).is_ok());
    assert_eq!(s.vault.find_epoch(1), Some(1));
}

#[test]
fn epoch_needs_rewards_administrator() {
    let mut s = setup();
    let admin = CreateRewardsEpoch { admin: key(ALICE) };
    assert_eq!(
        s.vault.create_rewards_epoch(&admin, 0, [0u8; 32], 0, 5),
        Err(CustomErrorCode::InvalidRewardsAdministrator)
    );
}

#[test]
fn non_owner_cannot_update_administrators() {
    let mut s = setup();
    let admin = owner_ctx(&s, FREEZE_ADMIN);
    assert_eq!(
        s.vault.update_freeze_administrators(&admin, vec![key(ALICE)]),
        Err(CustomErrorCode::InvalidUpgradeAuthority)
    );
    let rewards_admin = UpdateRewardsAdministrators {
        program_data: genuine_record(&s),
        signer: key(REWARDS_ADMIN),
        signed: true,
    };
    assert_eq!(
        s.vault.update_rewards_administrators(&rewards_admin, vec![key(ALICE)]),
        Err(CustomErrorCode::InvalidUpgradeAuthority)
    );
    let c = s.vault.config.as_ref().unwrap();
    assert_eq!(c.freeze_administrators.len(), 1);
    assert_eq!(c.freeze_administrators[0].bytes, key(FREEZE_ADMIN).bytes);
}

#[test]
fn forged_deployment_record_is_refused() {
    let mut s = setup();
    let forged = UpdateFreezeAdministrators {
        program_data: ProgramData { address: key(99), upgrade_authority: Some(key(ALICE)) },
        signer: key(ALICE),
        signed: true,
    };
    assert_eq!(
        s.vault.update_freeze_administrators(&forged, vec![key(ALICE)]),
        Err(CustomErrorCode::InvalidProgramData)
    );
}

#[test]
fn deployment_without_owner_refuses_updates() {
    let mut s = setup();
    let ctx = UpdateFreezeAdministrators {
        program_data: ProgramData { address: s.vault.authorities.program_data, upgrade_authority: None },
        signer: key(OWNER),
        signed: true,
    };
    assert_eq!(
        s.vault.update_freeze_administrators(&ctx, vec![]),
        Err(CustomErrorCode::NoUpgradeAuthority)
    );
}

#[test]
fn owner_must_sign_updates() {
    let mut s = setup();
    let ctx = UpdateFreezeAdministrators { signed: false, ..owner_ctx(&s, OWNER) };
    assert_eq!(s.vault.update_freeze_administrators(&ctx, vec![]), Err(CustomErrorCode::MissingSigner));
}

#[test]
fn owner_updates_administrators() {
    let mut s = setup();
    let ctx = owner_ctx(&s, OWNER);
    assert!(s.vault.update_freeze_administrators(&ctx, vec![key(ALICE), key(BOB)]).is_ok());
    let rewards = UpdateRewardsAdministrators {
        program_data: ctx.program_data,
        signer: ctx.signer,
        signed: true,
    };
    assert!(s.vault.update_rewards_administrators(&rewards, vec![key(BOB)]).is_ok());
    let c = s.vault.config.as_ref().unwrap();
    assert_eq!(c.freeze_administrators.len(), 2);
    assert_eq!(c.rewards_administrators[0].bytes, key(BOB).bytes);
}

fn keys(n: u8) -> Vec<Pubkey> {
    (0..n).map(|i| key(100 + i)).collect()
}

#[test]
fn administrator_set_of_six_is_rejected() {
    let mut s = fresh();
    let ctx = init_ctx(&s);
    assert_eq!(
        s.vault.initialize(&ctx, key(USDC), key(WYLDS), keys(6), keys(1)),
        Err(CustomErrorCode::TooManyAdministrators)
    );
    assert_eq!(
        s.vault.initialize(&ctx, key(USDC), key(WYLDS), keys(1), keys(6)),
        Err(CustomErrorCode::TooManyAdministrators)
    );
    let mut s = setup();
    let owner = owner_ctx(&s, OWNER);
    assert_eq!(
        s.vault.update_freeze_administrators(&owner, keys(6)),
        Err(CustomErrorCode::TooManyAdministrators)
    );
    let rewards = UpdateRewardsAdministrators {
        program_data: owner.program_data,
        signer: owner.signer,
        signed: true,
    };
    assert_eq!(
        s.vault.update_rewards_administrators(&rewards, keys(6)),
        Err(CustomErrorCode::TooManyAdministrators)
    );
}

#[test]
fn administrator_set_of_five_is_accepted() {
    let mut s = fresh();
    let ctx = init_ctx(&s);
    assert!(s.vault.initialize(&ctx, key(USDC), key(WYLDS), keys(5), keys(5)).is_ok());
    let owner = owner_ctx(&s, OWNER);
    assert!(s.vault.update_freeze_administrators(&owner, keys(5)).is_ok());
    let rewards = UpdateRewardsAdministrators {
        program_data: owner.program_data,
        signer: owner.signer,
        signed: true,
    };
    assert!(s.vault.update_rewards_administrators(&rewards, keys(5)).is_ok());
}

#[test]
fn freeze_of_asset_without_program_freeze_authority_fails() {
    let mut s = setup();
    let ctx = FreezeTokenAccount { signer: key(FREEZE_ADMIN), token_account: s.alice_usdc, mint: 0 };
    assert_eq!(s.vault.freeze_token_account(&ctx), Err(CustomErrorCode::InvalidFreezeAuthority));
    assert!(!s.vault.ledger.accounts[s.alice_usdc].frozen);
}

#[test]
fn freeze_needs_freeze_administrator() {
    let mut s = setup();
    let ctx = FreezeTokenAccount { signer: key(REWARDS_ADMIN), token_account: s.alice_wylds, mint: s.wylds };
    assert_eq!(
        s.vault.freeze_token_account(&ctx),
        Err(CustomErrorCode::UnauthorizedFreezeAdministrator)
    );
}

#[test]
fn freeze_then_thaw_restores_transfers() {
    let mut s = setup();
    let ctx = deposit_ctx(&s);
    s.vault.deposit(&ctx, 100).unwrap();
    let freeze = FreezeTokenAccount { signer: key(FREEZE_ADMIN), token_account: s.alice_wylds, mint: s.wylds };
    s.vault.freeze_token_account(&freeze).unwrap();
    assert!(s.vault.ledger.accounts[s.alice_wylds].frozen);
    let alice = key(ALICE);
    assert_eq!(
        s.vault.ledger.transfer(s.alice_wylds, s.bob_wylds, &alice, 10),
        Err(CustomErrorCode::AccountFrozen)
    );
    let thaw = ThawTokenAccount { signer: key(FREEZE_ADMIN), token_account: s.alice_wylds, mint: s.wylds };
    s.vault.thaw_token_account(&thaw).unwrap();
    assert!(s.vault.ledger.transfer(s.alice_wylds, s.bob_wylds, &alice, 10).is_ok());
    assert_eq!(balance(&s, s.bob_wylds), 10);
}

#[test]
fn frozen_account_cannot_deposit() {
    let mut s = setup();
    let freeze = FreezeTokenAccount { signer: key(FREEZE_ADMIN), token_account: s.alice_wylds, mint: s.wylds };
    s.vault.freeze_token_account(&freeze).unwrap();
    let ctx = deposit_ctx(&s);
    assert_eq!(s.vault.deposit(&ctx, 10).unwrap_err(), CustomErrorCode::AccountFrozen);
    assert_eq!(balance(&s, s.alice_usdc), 1_000);
    assert_eq!(s.vault.freeze_token_account(&freeze), Err(CustomErrorCode::InvalidState));
}

#[test]
fn zero_amount_is_rejected_everywhere() {
    let mut s = setup();
    let ctx = deposit_ctx(&s);
    assert_eq!(s.vault.deposit(&ctx, 0).unwrap_err(), CustomErrorCode::InvalidAmount);
    let req = request_ctx(&s);
    assert_eq!(s.vault.request_redeem(&req, 0).unwrap_err(), CustomErrorCode::InvalidAmount);
    let (_, l1) = two_leaf_epoch(&mut s);
    let claim = claim_ctx(&s, ALICE, s.alice_wylds);
    let proof = vec![ProofNode { sibling: l1, is_left: false }];
    assert_eq!(s.vault.claim_rewards(&claim, 0, proof).unwrap_err(), CustomErrorCode::InvalidAmount);
    let ext = ExternalProgramMint {
        external_mint_program_caller: key(77),
        signer: key(ALICE),
        mint: s.wylds,
        destination: s.alice_wylds,
    };
    assert_eq!(s.vault.external_program_mint(&ext, 0).unwrap_err(), CustomErrorCode::InvalidAmount);
}

#[test]
fn external_mint_only_for_registered_caller() {
    let mut s = setup();
    let ext = ExternalProgramMint {
        external_mint_program_caller: key(77),
        signer: key(ALICE),
        mint: s.wylds,
        destination: s.bob_wylds,
    };
    assert_eq!(
        s.vault.external_program_mint(&ext, 5).unwrap_err(),
        CustomErrorCode::UnauthorizedExternalCaller
    );
    let reg = UpdateExternalMintCaller { program_data: genuine_record(&s), signer: key(OWNER), signed: true };
    s.vault.update_external_mint_caller(&reg, Some(key(77))).unwrap();
    let ev = s.vault.external_program_mint(&ext, 5).unwrap();
    assert_eq!(ev.destination.bytes, key(25).bytes);
    assert_eq!(balance(&s, s.bob_wylds), 5);
    let other = ExternalProgramMint { external_mint_program_caller: key(78), ..ext };
    assert_eq!(
        s.vault.external_program_mint(&other, 5).unwrap_err(),
        CustomErrorCode::UnauthorizedExternalCaller
    );
}

#[test]
fn paused_vault_refuses_movements() {
    let mut s = setup();
    let pause = Pause { program_data: genuine_record(&s), signer: key(OWNER), signed: true };
    assert_eq!(
        s.vault.set_paused(&Pause { signer: key(ALICE), ..pause }, true),
        Err(CustomErrorCode::InvalidUpgradeAuthority)
    );
    s.vault.set_paused(&pause, true).unwrap();
    let ctx = deposit_ctx(&s);
    assert_eq!(s.vault.deposit(&ctx, 10).unwrap_err(), CustomErrorCode::ProgramPaused);
    let freeze = FreezeTokenAccount { signer: key(FREEZE_ADMIN), token_account: s.alice_wylds, mint: s.wylds };
    assert_eq!(s.vault.freeze_token_account(&freeze), Err(CustomErrorCode::ProgramPaused));
    let admin = CreateRewardsEpoch { admin: key(REWARDS_ADMIN) };
    assert_eq!(
        s.vault.create_rewards_epoch(&admin, 0, [0u8; 32], 0, 5),
        Err(CustomErrorCode::ProgramPaused)
    );
    let owner = owner_ctx(&s, OWNER);
    assert!(s.vault.update_freeze_administrators(&owner, vec![key(BOB)]).is_ok());
    s.vault.set_paused(&pause, false).unwrap();
    assert!(s.vault.deposit(&ctx, 10).is_ok());
}

#[test]
fn operations_before_initialize_fail() {
    let mut s = fresh();
    let ctx = deposit_ctx(&s);
    assert_eq!(s.vault.deposit(&ctx, 10).unwrap_err(), CustomErrorCode::NotInitialized);
    let bad = Deposit { mint: 9, ..ctx };
    let mut t = setup();
    assert_eq!(t.vault.deposit(&bad, 10).unwrap_err(), CustomErrorCode::UnknownAccount);
}
