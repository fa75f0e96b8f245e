//! The vault: the registry, the per-user and per-epoch records, and the
//! ledger they govern, with one operation per entry point. Every operation
//! either commits all of its record and ledger changes or fails with a typed
//! error and leaves everything as it was.
use vstd::prelude::*;
use vstd::string::StringSliceAdditionalSpecFns;
use crate::account_structs::{
    ClaimRewards, CompleteRedeem, CreateRewardsEpoch, Deposit, ExternalProgramMint,
    FreezeTokenAccount, Initialize, Pause, RequestRedeem, ThawTokenAccount,
    UpdateExternalMintCaller, UpdateFreezeAdministrators, UpdateRewardsAdministrators,
};
use crate::crypto::{
    derived_address_of, try_find_program_address, upgradeable_loader, upgradeable_loader_id,
};
use crate::error::CustomErrorCode;
use crate::events::{
    DepositEvent, ExternalProgramMintEvent, RedeemCompleted, RedemptionRequested, RewardsClaimed,
};
use crate::guard::{update_authority_error, validate_program_update_authority};
use crate::keys::{contains_key, holds_key, Pubkey};
use crate::ledger::{Ledger, LedgerView, MintAccount, TokenAccount};
use crate::merkle::{proof_accepted, verify_proof};
use crate::state::{
    ClaimRecord, Config, ConfigView, DerivedAuthorities, ProgramData, ProofNode, RedemptionRequest,
    RewardsEpoch, MAX_ADMINISTRATORS,
};

verus! {

/// The redeem-vault authority must hold more than this operational balance
/// before a redemption can be requested.
pub const MIN_REDEEM_VAULT_RESERVE: u64 = 100_000;

pub open spec fn mint_authority_seed() -> Seq<u8> {
    "mint_authority".spec_bytes()
}

pub open spec fn freeze_authority_seed() -> Seq<u8> {
    "freeze_authority".spec_bytes()
}

pub open spec fn redeem_vault_authority_seed() -> Seq<u8> {
    "redeem_vault_authority".spec_bytes()
}

/// Each derived signer is the address found for its label under the
/// program, and the deployment record's address is the one found for the
/// program's identity under the upgradeable loader.
pub open spec fn authorities_derived(a: DerivedAuthorities) -> bool {
    &&& derived_address_of(mint_authority_seed(), a.program_id@) == Some(a.mint_authority@)
    &&& derived_address_of(freeze_authority_seed(), a.program_id@) == Some(a.freeze_authority@)
    &&& derived_address_of(redeem_vault_authority_seed(), a.program_id@) == Some(
        a.redeem_vault_authority@,
    )
    &&& a.loader_id@ == upgradeable_loader()
    &&& derived_address_of(a.program_id@, upgradeable_loader()) == Some(a.program_data@)
}

/// Whether some derived authority, or the deployment record's address,
/// cannot be found for `program_id`.
pub open spec fn derivation_fails(program_id: Pubkey) -> bool {
    ||| derived_address_of(mint_authority_seed(), program_id@) is None
    ||| derived_address_of(freeze_authority_seed(), program_id@) is None
    ||| derived_address_of(redeem_vault_authority_seed(), program_id@) is None
    ||| derived_address_of(program_id@, upgradeable_loader()) is None
}

pub open spec fn has_request(s: Seq<RedemptionRequest>, user: Pubkey) -> bool {
    exists|i: int| 0 <= i < s.len() && #[trigger] s[i].user == user
}

/// Where the request of `user` stands.
pub open spec fn request_slot(s: Seq<RedemptionRequest>, user: Pubkey) -> int {
    choose|i: int| 0 <= i < s.len() && #[trigger] s[i].user == user
}

pub open spec fn has_epoch(s: Seq<RewardsEpoch>, index: u64) -> bool {
    exists|i: int| 0 <= i < s.len() && #[trigger] s[i].index == index
}

/// Where the epoch numbered `index` stands.
pub open spec fn epoch_slot(s: Seq<RewardsEpoch>, index: u64) -> int {
    choose|i: int| 0 <= i < s.len() && #[trigger] s[i].index == index
}

pub open spec fn has_claim(s: Seq<ClaimRecord>, epoch: u64, user: Pubkey) -> bool {
    exists|i: int| 0 <= i < s.len() && #[trigger] s[i].epoch == epoch && s[i].user == user
}

pub struct Vault {
    pub authorities: DerivedAuthorities,
    /// The registry, once created.
    pub config: Option<Config>,
    pub requests: Vec<RedemptionRequest>,
    pub epochs: Vec<RewardsEpoch>,
    pub claims: Vec<ClaimRecord>,
    pub ledger: Ledger,
}

pub struct VaultView {
    pub authorities: DerivedAuthorities,
    pub config: Option<ConfigView>,
    pub requests: Seq<RedemptionRequest>,
    pub epochs: Seq<RewardsEpoch>,
    pub claims: Seq<ClaimRecord>,
    pub ledger: LedgerView,
}

impl VaultView {
    /// Administrator sets stay bounded, and each record address is taken at
    /// most once: one request per user, one epoch per index, one claim per
    /// epoch and user.
    pub open spec fn wf(self) -> bool {
        &&& self.config matches Some(c) ==> c.wf()
        &&& forall|i: int, j: int|
            0 <= i < self.requests.len() && 0 <= j < self.requests.len() && i != j
                ==> #[trigger] self.requests[i].user != #[trigger] self.requests[j].user
        &&& forall|i: int, j: int|
            0 <= i < self.epochs.len() && 0 <= j < self.epochs.len() && i != j
                ==> #[trigger] self.epochs[i].index != #[trigger] self.epochs[j].index
        &&& forall|i: int, j: int|
            0 <= i < self.claims.len() && 0 <= j < self.claims.len() && i != j ==> (
            #[trigger] self.claims[i].epoch != #[trigger] self.claims[j].epoch || self.claims[i].user
                != self.claims[j].user)
    }

    pub open spec fn cfg(self) -> ConfigView {
        self.config->0
    }

    pub open spec fn account(self, h: usize) -> TokenAccount {
        self.ledger.accounts[h as int]
    }

    pub open spec fn asset(self, h: usize) -> MintAccount {
        self.ledger.mints[h as int]
    }

    pub open spec fn has_account(self, h: usize) -> bool {
        self.ledger.has_account(h as int)
    }

    pub open spec fn has_asset(self, h: usize) -> bool {
        self.ledger.has_mint(h as int)
    }

    // ---- initialize ----
    pub open spec fn initialize_error(
        self,
        ctx: Initialize,
        vault_mint: Pubkey,
        freeze_administrators: Seq<Pubkey>,
        rewards_administrators: Seq<Pubkey>,
    ) -> Option<CustomErrorCode> {
        let redeem = self.account(ctx.redeem_vault_token_account);
        if self.config is Some {
            Some(CustomErrorCode::AccountAlreadyInUse)
        } else if freeze_administrators.len() > MAX_ADMINISTRATORS || rewards_administrators.len()
            > MAX_ADMINISTRATORS {
            Some(CustomErrorCode::TooManyAdministrators)
        } else if !self.has_account(ctx.vault_token_account) || !self.has_account(
            ctx.redeem_vault_token_account,
        ) {
            Some(CustomErrorCode::UnknownAccount)
        } else if self.account(ctx.vault_token_account).mint != vault_mint || redeem.mint
            != vault_mint {
            Some(CustomErrorCode::InvalidMint)
        } else if redeem.owner != ctx.signer && redeem.owner
            != self.authorities.redeem_vault_authority {
            Some(CustomErrorCode::InvalidAuthority)
        } else if redeem.owner == ctx.signer {
            self.ledger.set_owner_error(ctx.redeem_vault_token_account as int, ctx.signer)
        } else {
            None
        }
    }

    pub open spec fn after_initialize(
        self,
        ctx: Initialize,
        vault_mint: Pubkey,
        mint: Pubkey,
        freeze_administrators: Seq<Pubkey>,
        rewards_administrators: Seq<Pubkey>,
    ) -> VaultView {
        let redeem = self.account(ctx.redeem_vault_token_account);
        VaultView {
            config: Some(
                ConfigView {
                    vault: vault_mint,
                    mint,
                    freeze_administrators,
                    rewards_administrators,
                    vault_authority: self.account(ctx.vault_token_account).owner,
                    redeem_vault: redeem.address,
                    paused: false,
                    allow_mint_program_caller: None,
                },
            ),
            ledger: if redeem.owner == ctx.signer {
                self.ledger.set_owner(
                    ctx.redeem_vault_token_account as int,
                    self.authorities.redeem_vault_authority,
                )
            } else {
                self.ledger
            },
            ..self
        }
    }

    // ---- deposit ----
    pub open spec fn deposit_error(self, ctx: Deposit, amount: u64) -> Option<CustomErrorCode> {
        let c = self.cfg();
        let vault = self.account(ctx.vault_token_account);
        let user_vault = self.account(ctx.user_vault_token_account);
        let user_mint = self.account(ctx.user_mint_token_account);
        let moved = self.ledger.transfer(
            ctx.user_vault_token_account as int,
            ctx.vault_token_account as int,
            ctx.signer,
            amount,
        );
        if amount == 0 {
            Some(CustomErrorCode::InvalidAmount)
        } else if self.config is None {
            Some(CustomErrorCode::NotInitialized)
        } else if c.paused {
            Some(CustomErrorCode::ProgramPaused)
        } else if !self.has_account(ctx.vault_token_account) || !self.has_asset(ctx.mint)
            || !self.has_account(ctx.user_vault_token_account) || !self.has_account(
            ctx.user_mint_token_account,
        ) {
            Some(CustomErrorCode::UnknownAccount)
        } else if vault.mint != c.vault {
            Some(CustomErrorCode::InvalidVaultMint)
        } else if vault.owner != c.vault_authority {
            Some(CustomErrorCode::InvalidVaultAuthority)
        } else if self.asset(ctx.mint).address != c.mint {
            Some(CustomErrorCode::InvalidMint)
        } else if self.asset(ctx.mint).mint_authority != Some(self.authorities.mint_authority) {
            Some(CustomErrorCode::InvalidMintAuthority)
        } else if user_vault.mint != c.vault {
            Some(CustomErrorCode::InvalidVaultMint)
        } else if user_vault.owner != ctx.signer {
            Some(CustomErrorCode::InvalidTokenOwner)
        } else if user_mint.mint != c.mint {
            Some(CustomErrorCode::InvalidMint)
        } else if user_mint.owner != ctx.signer {
            Some(CustomErrorCode::InvalidTokenOwner)
        } else if self.ledger.transfer_error(
            ctx.user_vault_token_account as int,
            ctx.vault_token_account as int,
            ctx.signer,
            amount,
        ).is_some() {
            self.ledger.transfer_error(
                ctx.user_vault_token_account as int,
                ctx.vault_token_account as int,
                ctx.signer,
                amount,
            )
        } else {
            moved.mint_to_error(
                ctx.mint as int,
                ctx.user_mint_token_account as int,
                self.authorities.mint_authority,
                amount,
            )
        }
    }

    /// The caller's deposit asset moves into the vault, then the same amount
    /// of synthetic asset is minted to the caller.
    pub open spec fn after_deposit(self, ctx: Deposit, amount: u64) -> VaultView {
        VaultView {
            ledger: self.ledger.transfer(
                ctx.user_vault_token_account as int,
                ctx.vault_token_account as int,
                ctx.signer,
                amount,
            ).mint_to(ctx.mint as int, ctx.user_mint_token_account as int, amount),
            ..self
        }
    }

    // ---- request_redeem ----
    pub open spec fn request_redeem_error(self, ctx: RequestRedeem, amount: u64) -> Option<
        CustomErrorCode,
    > {
        let c = self.cfg();
        let user_mint = self.account(ctx.user_mint_token_account);
        if amount == 0 {
            Some(CustomErrorCode::InvalidAmount)
        } else if self.config is None {
            Some(CustomErrorCode::NotInitialized)
        } else if c.paused {
            Some(CustomErrorCode::ProgramPaused)
        } else if !self.has_account(ctx.user_mint_token_account) || !self.has_asset(ctx.mint) {
            Some(CustomErrorCode::UnknownAccount)
        } else if self.asset(ctx.mint).address != c.mint || user_mint.mint != c.mint {
            Some(CustomErrorCode::InvalidMint)
        } else if user_mint.owner != ctx.signer {
            Some(CustomErrorCode::InvalidTokenOwner)
        } else if has_request(self.requests, ctx.signer) {
            Some(CustomErrorCode::AccountAlreadyInUse)
        } else if user_mint.amount < amount {
            Some(CustomErrorCode::InsufficientBalance)
        } else if ctx.redeem_vault_reserve <= MIN_REDEEM_VAULT_RESERVE {
            Some(CustomErrorCode::InsufficientRedeemVaultFunds)
        } else {
            self.ledger.approve_error(ctx.user_mint_token_account as int, ctx.signer)
        }
    }

    /// The caller lets the redeem-vault authority burn up to `amount` of its
    /// synthetic asset, and its request is recorded.
    pub open spec fn after_request_redeem(self, ctx: RequestRedeem, amount: u64) -> VaultView {
        VaultView {
            ledger: self.ledger.approve(
                ctx.user_mint_token_account as int,
                self.authorities.redeem_vault_authority,
                amount,
            ),
            requests: self.requests.push(
                RedemptionRequest {
                    user: ctx.signer,
                    amount,
                    vault_mint: self.cfg().vault,
                    mint: self.cfg().mint,
                },
            ),
            ..self
        }
    }

    // ---- complete_redeem ----
    /// The pending request of the user that `ctx` names.
    pub open spec fn pending_request(self, ctx: CompleteRedeem) -> RedemptionRequest {
        self.requests[request_slot(self.requests, ctx.user)]
    }

    /// What is paid out: the request, capped by what the user still holds.
    pub open spec fn redeem_amount(self, ctx: CompleteRedeem) -> u64 {
        let held = self.account(ctx.user_mint_token_account).amount;
        let asked = self.pending_request(ctx).amount;
        if held < asked {
            held
        } else {
            asked
        }
    }

    pub open spec fn complete_redeem_error(self, ctx: CompleteRedeem) -> Option<CustomErrorCode> {
        let c = self.cfg();
        let user_mint = self.account(ctx.user_mint_token_account);
        let redeem = self.account(ctx.redeem_vault_token_account);
        let authority = self.authorities.redeem_vault_authority;
        let amount = self.redeem_amount(ctx);
        if self.config is None {
            Some(CustomErrorCode::NotInitialized)
        } else if c.paused {
            Some(CustomErrorCode::ProgramPaused)
        } else if !has_request(self.requests, ctx.user) {
            Some(CustomErrorCode::AccountNotInitialized)
        } else if !self.has_account(ctx.user_mint_token_account) || !self.has_account(
            ctx.user_vault_token_account,
        ) || !self.has_account(ctx.redeem_vault_token_account) || !self.has_asset(ctx.mint) {
            Some(CustomErrorCode::UnknownAccount)
        } else if user_mint.mint != c.mint {
            Some(CustomErrorCode::InvalidMint)
        } else if user_mint.owner != ctx.user {
            Some(CustomErrorCode::InvalidTokenOwner)
        } else if self.account(ctx.user_vault_token_account).mint != c.vault || redeem.mint
            != c.vault {
            Some(CustomErrorCode::InvalidVaultMint)
        } else if redeem.owner != authority {
            Some(CustomErrorCode::InvalidVaultAuthority)
        } else if self.asset(ctx.mint).address != self.pending_request(ctx).mint || self.asset(
            ctx.mint,
        ).address != c.mint {
            Some(CustomErrorCode::InvalidMint)
        } else if !c.rewards_administrators.contains(ctx.admin) {
            Some(CustomErrorCode::InvalidRewardsAdministrator)
        } else if amount == 0 {
            Some(CustomErrorCode::InvalidAmount)
        } else if redeem.amount < amount {
            Some(CustomErrorCode::InsufficientVaultBalance)
        } else if self.ledger.burn_error(
            ctx.user_mint_token_account as int,
            ctx.mint as int,
            authority,
            amount,
        ).is_some() {
            self.ledger.burn_error(
                ctx.user_mint_token_account as int,
                ctx.mint as int,
                authority,
                amount,
            )
        } else {
            self.ledger.burn(
                ctx.user_mint_token_account as int,
                ctx.mint as int,
                authority,
                amount,
            ).transfer_error(
                ctx.redeem_vault_token_account as int,
                ctx.user_vault_token_account as int,
                authority,
                amount,
            )
        }
    }

    /// The redeem-vault authority burns the redeemed amount from the user
    /// and pays the same amount of deposit asset out of the redemption
    /// vault; the request is gone.
    pub open spec fn after_complete_redeem(self, ctx: CompleteRedeem) -> VaultView {
        let authority = self.authorities.redeem_vault_authority;
        let amount = self.redeem_amount(ctx);
        VaultView {
            ledger: self.ledger.burn(
                ctx.user_mint_token_account as int,
                ctx.mint as int,
                authority,
                amount,
            ).transfer(
                ctx.redeem_vault_token_account as int,
                ctx.user_vault_token_account as int,
                authority,
                amount,
            ),
            requests: self.requests.remove(request_slot(self.requests, ctx.user)),
            ..self
        }
    }

    // ---- owner-gated configuration ----
    /// Why `signer` may not change the configuration, given the deployment
    /// record it presents. The pause flag does not apply here: these changes
    /// are the owner's way out of an incident, lifting the pause included.
    pub open spec fn owner_error(self, program_data: ProgramData, signer: Pubkey, signed: bool) -> Option<
        CustomErrorCode,
    > {
        if self.config is None {
            Some(CustomErrorCode::NotInitialized)
        } else {
            update_authority_error(self.authorities.program_data, program_data, signer, signed)
        }
    }

    pub open spec fn update_freeze_administrators_error(
        self,
        ctx: UpdateFreezeAdministrators,
        new_administrators: Seq<Pubkey>,
    ) -> Option<CustomErrorCode> {
        if self.owner_error(ctx.program_data, ctx.signer, ctx.signed) is Some {
            self.owner_error(ctx.program_data, ctx.signer, ctx.signed)
        } else if new_administrators.len() > MAX_ADMINISTRATORS {
            Some(CustomErrorCode::TooManyAdministrators)
        } else {
            None
        }
    }

    pub open spec fn update_rewards_administrators_error(
        self,
        ctx: UpdateRewardsAdministrators,
        new_administrators: Seq<Pubkey>,
    ) -> Option<CustomErrorCode> {
        if self.owner_error(ctx.program_data, ctx.signer, ctx.signed) is Some {
            self.owner_error(ctx.program_data, ctx.signer, ctx.signed)
        } else if new_administrators.len() > MAX_ADMINISTRATORS {
            Some(CustomErrorCode::TooManyAdministrators)
        } else {
            None
        }
    }

    pub open spec fn with_config(self, c: ConfigView) -> VaultView {
        VaultView { config: Some(c), ..self }
    }

    // ---- freeze / thaw ----
    pub open spec fn set_frozen_error(self, signer: Pubkey, token_account: usize, mint: usize, frozen: bool) -> Option<
        CustomErrorCode,
    > {
        let authority = self.authorities.freeze_authority;
        if self.config is None {
            Some(CustomErrorCode::NotInitialized)
        } else if !self.has_account(token_account) || !self.has_asset(mint) {
            Some(CustomErrorCode::UnknownAccount)
        } else if self.asset(mint).freeze_authority != Some(authority) {
            Some(CustomErrorCode::InvalidFreezeAuthority)
        } else if self.account(token_account).mint != self.asset(mint).address {
            Some(CustomErrorCode::InvalidMint)
        } else if self.cfg().paused {
            Some(CustomErrorCode::ProgramPaused)
        } else if !self.cfg().freeze_administrators.contains(signer) {
            Some(CustomErrorCode::UnauthorizedFreezeAdministrator)
        } else {
            self.ledger.freeze_state_error(token_account as int, mint as int, authority, frozen)
        }
    }

    pub open spec fn after_set_frozen(self, token_account: usize, frozen: bool) -> VaultView {
        VaultView { ledger: self.ledger.set_frozen(token_account as int, frozen), ..self }
    }

    // ---- rewards ----
    pub open spec fn create_rewards_epoch_error(self, ctx: CreateRewardsEpoch, index: u64) -> Option<
        CustomErrorCode,
    > {
        if self.config is None {
            Some(CustomErrorCode::NotInitialized)
        } else if self.cfg().paused {
            Some(CustomErrorCode::ProgramPaused)
        } else if has_epoch(self.epochs, index) {
            Some(CustomErrorCode::AccountAlreadyInUse)
        } else if !self.cfg().rewards_administrators.contains(ctx.admin) {
            Some(CustomErrorCode::InvalidRewardsAdministrator)
        } else {
            None
        }
    }

    /// The epoch that a claim names.
    pub open spec fn claimed_epoch(self, ctx: ClaimRewards) -> RewardsEpoch {
        self.epochs[epoch_slot(self.epochs, ctx.epoch)]
    }

    /// Why the claim's amount, registry, epoch and accounts are not in order.
    pub open spec fn claim_accounts_error(self, ctx: ClaimRewards, amount: u64) -> Option<
        CustomErrorCode,
    > {
        let c = self.cfg();
        let user_mint = self.account(ctx.user_mint_token_account);
        if amount == 0 {
            Some(CustomErrorCode::InvalidAmount)
        } else if self.config is None {
            Some(CustomErrorCode::NotInitialized)
        } else if c.paused {
            Some(CustomErrorCode::ProgramPaused)
        } else if !has_epoch(self.epochs, ctx.epoch) {
            Some(CustomErrorCode::InvalidRewardsEpoch)
        } else if !self.has_account(ctx.user_mint_token_account) || !self.has_asset(ctx.mint) {
            Some(CustomErrorCode::UnknownAccount)
        } else if self.asset(ctx.mint).address != c.mint {
            Some(CustomErrorCode::InvalidMint)
        } else if self.asset(ctx.mint).mint_authority != Some(self.authorities.mint_authority) {
            Some(CustomErrorCode::InvalidMintAuthority)
        } else if user_mint.mint != c.mint {
            Some(CustomErrorCode::InvalidMint)
        } else if user_mint.owner != ctx.user {
            Some(CustomErrorCode::InvalidTokenOwner)
        } else {
            None
        }
    }

    pub open spec fn claim_rewards_error(self, ctx: ClaimRewards, amount: u64, proof: Seq<ProofNode>) -> Option<
        CustomErrorCode,
    > {
        let epoch = self.claimed_epoch(ctx);
        if self.claim_accounts_error(ctx, amount) is Some {
            self.claim_accounts_error(ctx, amount)
        } else if !proof_accepted(ctx.user@, amount, epoch.index, proof, epoch.merkle_root@) {
            Some(CustomErrorCode::InvalidMerkleProof)
        } else if has_claim(self.claims, epoch.index, ctx.user) {
            Some(CustomErrorCode::RewardsAlreadyClaimed)
        } else {
            self.ledger.mint_to_error(
                ctx.mint as int,
                ctx.user_mint_token_account as int,
                self.authorities.mint_authority,
                amount,
            )
        }
    }

    /// The claim is marked, then `amount` of synthetic asset is minted to
    /// the claimant.
    pub open spec fn after_claim_rewards(self, ctx: ClaimRewards, amount: u64) -> VaultView {
        VaultView {
            claims: self.claims.push(ClaimRecord { epoch: ctx.epoch, user: ctx.user }),
            ledger: self.ledger.mint_to(ctx.mint as int, ctx.user_mint_token_account as int, amount),
            ..self
        }
    }

    pub open spec fn external_program_mint_error(self, ctx: ExternalProgramMint, amount: u64) -> Option<
        CustomErrorCode,
    > {
        let c = self.cfg();
        let authority = self.authorities.mint_authority;
        if amount == 0 {
            Some(CustomErrorCode::InvalidAmount)
        } else if self.config is None {
            Some(CustomErrorCode::NotInitialized)
        } else if c.paused {
            Some(CustomErrorCode::ProgramPaused)
        } else if c.allow_mint_program_caller != Some(ctx.external_mint_program_caller) {
            Some(CustomErrorCode::UnauthorizedExternalCaller)
        } else if !self.has_account(ctx.destination) || !self.has_asset(ctx.mint) {
            Some(CustomErrorCode::UnknownAccount)
        } else if self.asset(ctx.mint).address != c.mint {
            Some(CustomErrorCode::InvalidMint)
        } else if self.asset(ctx.mint).mint_authority != Some(authority) {
            Some(CustomErrorCode::InvalidMintAuthority)
        } else if self.account(ctx.destination).mint != c.mint {
            Some(CustomErrorCode::InvalidMint)
        } else {
            self.ledger.mint_to_error(ctx.mint as int, ctx.destination as int, authority, amount)
        }
    }

    pub open spec fn after_external_program_mint(self, ctx: ExternalProgramMint, amount: u64) -> VaultView {
        VaultView {
            ledger: self.ledger.mint_to(ctx.mint as int, ctx.destination as int, amount),
            ..self
        }
    }
}

impl Vault {
    pub open spec fn view(&self) -> VaultView {
        VaultView {
            authorities: self.authorities,
            config: match self.config {
                Some(c) => Some(c@),
                None => None,
            },
            requests: self.requests@,
            epochs: self.epochs@,
            claims: self.claims@,
            ledger: self.ledger@,
        }
    }

    pub open spec fn wf(&self) -> bool {
        self@.wf()
    }

    /// A vault of program `program_id` over `ledger`, with no registry yet;
    /// fails when a derived authority cannot be found.
    pub fn new(program_id: Pubkey, ledger: Ledger) -> (r: Result<Vault, CustomErrorCode>)
        ensures
            r matches Ok(v) ==> {
                &&& v.wf()
                &&& v@.authorities.program_id == program_id
                &&& authorities_derived(v@.authorities)
                &&& v@.config is None
                &&& v@.requests.len() == 0
                &&& v@.epochs.len() == 0
                &&& v@.claims.len() == 0
                &&& v@.ledger == ledger@
            },
            r is Err <==> derivation_fails(program_id),
            r matches Err(e) ==> e == CustomErrorCode::InvalidSeeds,
    {
        let mint_authority = match try_find_program_address("mint_authority".as_bytes(), &program_id) {
            Some(k) => k,
            None => {
                return Err(CustomErrorCode::InvalidSeeds);
            },
        };
        let freeze_authority = match try_find_program_address(
            "freeze_authority".as_bytes(),
            &program_id,
        ) {
            Some(k) => k,
            None => {
                return Err(CustomErrorCode::InvalidSeeds);
            },
        };
        let redeem_vault_authority = match try_find_program_address(
            "redeem_vault_authority".as_bytes(),
            &program_id,
        ) {
            Some(k) => k,
            None => {
                return Err(CustomErrorCode::InvalidSeeds);
            },
        };
        let loader_id = upgradeable_loader_id();
        let program_data = match try_find_program_address(&program_id.bytes, &loader_id) {
            Some(k) => k,
            None => {
                return Err(CustomErrorCode::InvalidSeeds);
            },
        };
        let authorities = DerivedAuthorities {
            program_id,
            mint_authority,
            freeze_authority,
            redeem_vault_authority,
            loader_id,
            program_data,
        };
        Ok(
            Vault {
                authorities,
                config: None,
                requests: Vec::new(),
                epochs: Vec::new(),
                claims: Vec::new(),
                ledger,
            },
        )
    }

    /// Creates the registry. The deposit-holding account's current owner is
    /// recorded as the vault authority; a redemption vault still owned by
    /// the caller is handed to the redeem-vault authority.
    pub fn initialize(
        &mut self,
        ctx: &Initialize,
        vault_mint: Pubkey,
        mint: Pubkey,
        freeze_administrators: Vec<Pubkey>,
        rewards_administrators: Vec<Pubkey>,
    ) -> (r: Result<(), CustomErrorCode>)
        requires
            old(self).wf(),
        ensures
            final(self).wf(),
            r is Err <==> old(self)@.initialize_error(
                *ctx,
                vault_mint,
                freeze_administrators@,
                rewards_administrators@,
            ).is_some(),
            r matches Err(e) ==> old(self)@.initialize_error(
                *ctx,
                vault_mint,
                freeze_administrators@,
                rewards_administrators@,
            ) == Some(e) && final(self)@ == old(self)@,
            r is Ok ==> final(self)@ == old(self)@.after_initialize(
                *ctx,
                vault_mint,
                mint,
                freeze_administrators@,
                rewards_administrators@,
            ),
    {
        if self.config.is_some() {
            return Err(CustomErrorCode::AccountAlreadyInUse);
        }
        if freeze_administrators.len() > MAX_ADMINISTRATORS || rewards_administrators.len()
            > MAX_ADMINISTRATORS {
            return Err(CustomErrorCode::TooManyAdministrators);
        }
        if ctx.vault_token_account >= self.ledger.accounts.len()
            || ctx.redeem_vault_token_account >= self.ledger.accounts.len() {
            return Err(CustomErrorCode::UnknownAccount);
        }
        let vault = self.ledger.accounts[ctx.vault_token_account];
        let redeem = self.ledger.accounts[ctx.redeem_vault_token_account];
        if !vault.mint.same_as(&vault_mint) || !redeem.mint.same_as(&vault_mint) {
            return Err(CustomErrorCode::InvalidMint);
        }
        let redeem_authority = self.authorities.redeem_vault_authority;
        let owned_by_signer = redeem.owner.same_as(&ctx.signer);
        if !owned_by_signer && !redeem.owner.same_as(&redeem_authority) {
            return Err(CustomErrorCode::InvalidAuthority);
        }
        if owned_by_signer {
            match self.ledger.set_owner(ctx.redeem_vault_token_account, &ctx.signer, &redeem_authority) {
                Err(e) => {
                    return Err(e);
                },
                Ok(()) => {},
            }
        }
        self.config = Some(
            Config {
                vault: vault_mint,
                mint,
                freeze_administrators,
                rewards_administrators,
                vault_authority: vault.owner,
                redeem_vault: redeem.address,
                paused: false,
                allow_mint_program_caller: None,
            },
        );
        Ok(())
    }

    /// Takes `amount` of deposit asset from the caller into the vault and
    /// mints the same amount of synthetic asset to the caller.
    pub fn deposit(&mut self, ctx: &Deposit, amount: u64) -> (r: Result<DepositEvent, CustomErrorCode>)
        requires
            old(self).wf(),
        ensures
            final(self).wf(),
            r is Err <==> old(self)@.deposit_error(*ctx, amount).is_some(),
            r matches Err(e) ==> old(self)@.deposit_error(*ctx, amount) == Some(e) && final(self)@
                == old(self)@,
            r matches Ok(ev) ==> final(self)@ == old(self)@.after_deposit(*ctx, amount) && ev == (
            DepositEvent {
                user: ctx.signer,
                amount,
                mint: old(self)@.cfg().mint,
                vault: old(self)@.cfg().vault,
            }),
    {
        if amount == 0 {
            return Err(CustomErrorCode::InvalidAmount);
        }
        let (vault_asset, synthetic, vault_authority, paused) = match &self.config {
            Some(c) => (c.vault, c.mint, c.vault_authority, c.paused),
            None => {
                return Err(CustomErrorCode::NotInitialized);
            },
        };
        if paused {
            return Err(CustomErrorCode::ProgramPaused);
        }
        let n = self.ledger.accounts.len();
        if ctx.vault_token_account >= n || ctx.mint >= self.ledger.mints.len()
            || ctx.user_vault_token_account >= n || ctx.user_mint_token_account >= n {
            return Err(CustomErrorCode::UnknownAccount);
        }
        let vault = self.ledger.accounts[ctx.vault_token_account];
        let asset = self.ledger.mints[ctx.mint];
        let user_vault = self.ledger.accounts[ctx.user_vault_token_account];
        let user_mint = self.ledger.accounts[ctx.user_mint_token_account];
        let mint_authority = self.authorities.mint_authority;
        if !vault.mint.same_as(&vault_asset) {
            return Err(CustomErrorCode::InvalidVaultMint);
        }
        if !vault.owner.same_as(&vault_authority) {
            return Err(CustomErrorCode::InvalidVaultAuthority);
        }
        if !asset.address.same_as(&synthetic) {
            return Err(CustomErrorCode::InvalidMint);
        }
        if !holds_key(&asset.mint_authority, &mint_authority) {
            return Err(CustomErrorCode::InvalidMintAuthority);
        }
        if !user_vault.mint.same_as(&vault_asset) {
            return Err(CustomErrorCode::InvalidVaultMint);
        }
        if !user_vault.owner.same_as(&ctx.signer) {
            return Err(CustomErrorCode::InvalidTokenOwner);
        }
        if !user_mint.mint.same_as(&synthetic) {
            return Err(CustomErrorCode::InvalidMint);
        }
        if !user_mint.owner.same_as(&ctx.signer) {
            return Err(CustomErrorCode::InvalidTokenOwner);
        }
        let mut work = self.ledger.copy();
        match work.transfer(ctx.user_vault_token_account, ctx.vault_token_account, &ctx.signer, amount) {
            Err(e) => {
                return Err(e);
            },
            Ok(()) => {},
        }
        match work.mint_to(ctx.mint, ctx.user_mint_token_account, &mint_authority, amount) {
            Err(e) => {
                return Err(e);
            },
            Ok(()) => {},
        }
        self.ledger = work;
        Ok(DepositEvent { user: ctx.signer, amount, mint: synthetic, vault: vault_asset })
    }

    /// Where the request of `user` stands, if there is one.
    pub fn find_request(&self, user: &Pubkey) -> (r: Option<usize>)
        ensures
            r matches Some(i) ==> i < self.requests@.len() && self.requests@[i as int].user == *user,
            r is None ==> !has_request(self.requests@, *user),
    {
        let mut i: usize = 0;
        while i < self.requests.len()
            invariant
                i <= self.requests@.len(),
                forall|j: int| 0 <= j < i ==> #[trigger] self.requests@[j].user != *user,
            decreases self.requests.len() - i,
        {
            if self.requests[i].user.same_as(user) {
                return Some(i);
            }
            i = i + 1;
        }
        None
    }

    /// Records the caller's wish to redeem `amount` of synthetic asset and
    /// lets the redeem-vault authority burn that much from its account.
    pub fn request_redeem(&mut self, ctx: &RequestRedeem, amount: u64) -> (r: Result<
        RedemptionRequested,
        CustomErrorCode,
    >)
        requires
            old(self).wf(),
        ensures
            final(self).wf(),
            r is Err <==> old(self)@.request_redeem_error(*ctx, amount).is_some(),
            r matches Err(e) ==> old(self)@.request_redeem_error(*ctx, amount) == Some(e)
                && final(self)@ == old(self)@,
            r matches Ok(ev) ==> final(self)@ == old(self)@.after_request_redeem(*ctx, amount) && ev
                == (RedemptionRequested {
                user: ctx.signer,
                amount,
                vault_mint: old(self)@.cfg().vault,
                mint: old(self)@.cfg().mint,
            }),
    {
        if amount == 0 {
            return Err(CustomErrorCode::InvalidAmount);
        }
        let (vault_asset, synthetic, paused) = match &self.config {
            Some(c) => (c.vault, c.mint, c.paused),
            None => {
                return Err(CustomErrorCode::NotInitialized);
            },
        };
        if paused {
            return Err(CustomErrorCode::ProgramPaused);
        }
        if ctx.user_mint_token_account >= self.ledger.accounts.len() || ctx.mint
            >= self.ledger.mints.len() {
            return Err(CustomErrorCode::UnknownAccount);
        }
        let user_mint = self.ledger.accounts[ctx.user_mint_token_account];
        if !self.ledger.mints[ctx.mint].address.same_as(&synthetic) || !user_mint.mint.same_as(
            &synthetic,
        ) {
            return Err(CustomErrorCode::InvalidMint);
        }
        if !user_mint.owner.same_as(&ctx.signer) {
            return Err(CustomErrorCode::InvalidTokenOwner);
        }
        if self.find_request(&ctx.signer).is_some() {
            return Err(CustomErrorCode::AccountAlreadyInUse);
        }
        if user_mint.amount < amount {
            return Err(CustomErrorCode::InsufficientBalance);
        }
        if ctx.redeem_vault_reserve <= MIN_REDEEM_VAULT_RESERVE {
            return Err(CustomErrorCode::InsufficientRedeemVaultFunds);
        }
        let delegate = self.authorities.redeem_vault_authority;
        match self.ledger.approve(ctx.user_mint_token_account, &delegate, &ctx.signer, amount) {
            Err(e) => {
                return Err(e);
            },
            Ok(()) => {},
        }
        let request = RedemptionRequest {
            user: ctx.signer,
            amount,
            vault_mint: vault_asset,
            mint: synthetic,
        };
        self.requests.push(request);
        proof {
            let s = self@.requests;
            assert forall|i: int, j: int|
                0 <= i < s.len() && 0 <= j < s.len() && i != j implies #[trigger] s[i].user
                != #[trigger] s[j].user by {
                if i == s.len() - 1 {
                    assert(old(self)@.requests[j].user == s[j].user);
                } else if j == s.len() - 1 {
                    assert(old(self)@.requests[i].user == s[i].user);
                } else {
                    assert(old(self)@.requests[i] == s[i]);
                    assert(old(self)@.requests[j] == s[j]);
                }
            }
        }
        Ok(RedemptionRequested { user: ctx.signer, amount, vault_mint: vault_asset, mint: synthetic })
    }

    /// A rewards administrator completes the pending request of `ctx.user`:
    /// the smaller of the request and the user's holding is burned and paid
    /// out in deposit asset, and the request is removed.
    pub fn complete_redeem(&mut self, ctx: &CompleteRedeem) -> (r: Result<
        RedeemCompleted,
        CustomErrorCode,
    >)
        requires
            old(self).wf(),
        ensures
            final(self).wf(),
            r is Err <==> old(self)@.complete_redeem_error(*ctx).is_some(),
            r matches Err(e) ==> old(self)@.complete_redeem_error(*ctx) == Some(e) && final(self)@
                == old(self)@,
            r matches Ok(ev) ==> final(self)@ == old(self)@.after_complete_redeem(*ctx) && ev == (
            RedeemCompleted {
                user: ctx.user,
                admin: ctx.admin,
                amount: old(self)@.redeem_amount(*ctx),
                mint: old(self)@.asset(ctx.mint).address,
                vault: old(self)@.account(ctx.redeem_vault_token_account).mint,
            }),
    {
        let ghost pre = self@;
        let (vault_asset, synthetic, paused) = match &self.config {
            Some(c) => (c.vault, c.mint, c.paused),
            None => {
                return Err(CustomErrorCode::NotInitialized);
            },
        };
        if paused {
            return Err(CustomErrorCode::ProgramPaused);
        }
        let slot = match self.find_request(&ctx.user) {
            Some(i) => i,
            None => {
                return Err(CustomErrorCode::AccountNotInitialized);
            },
        };
        proof {
            let k = request_slot(pre.requests, ctx.user);
            assert(pre.requests[slot as int].user == ctx.user);
            assert(0 <= k < pre.requests.len() && pre.requests[k].user == ctx.user);
            assert(k == slot);
        }
        let request = self.requests[slot];
        let n = self.ledger.accounts.len();
        if ctx.user_mint_token_account >= n || ctx.user_vault_token_account >= n
            || ctx.redeem_vault_token_account >= n || ctx.mint >= self.ledger.mints.len() {
            return Err(CustomErrorCode::UnknownAccount);
        }
        let user_mint = self.ledger.accounts[ctx.user_mint_token_account];
        let user_vault = self.ledger.accounts[ctx.user_vault_token_account];
        let redeem = self.ledger.accounts[ctx.redeem_vault_token_account];
        let asset = self.ledger.mints[ctx.mint];
        let authority = self.authorities.redeem_vault_authority;
        if !user_mint.mint.same_as(&synthetic) {
            return Err(CustomErrorCode::InvalidMint);
        }
        if !user_mint.owner.same_as(&ctx.user) {
            return Err(CustomErrorCode::InvalidTokenOwner);
        }
        if !user_vault.mint.same_as(&vault_asset) || !redeem.mint.same_as(&vault_asset) {
            return Err(CustomErrorCode::InvalidVaultMint);
        }
        if !redeem.owner.same_as(&authority) {
            return Err(CustomErrorCode::InvalidVaultAuthority);
        }
        if !asset.address.same_as(&request.mint) || !asset.address.same_as(&synthetic) {
            return Err(CustomErrorCode::InvalidMint);
        }
        let is_admin = match &self.config {
            Some(c) => contains_key(&c.rewards_administrators, &ctx.admin),
            None => false,
        };
        if !is_admin {
            return Err(CustomErrorCode::InvalidRewardsAdministrator);
        }
        let amount = if user_mint.amount < request.amount {
            user_mint.amount
        } else {
            request.amount
        };
        if amount == 0 {
            return Err(CustomErrorCode::InvalidAmount);
        }
        if redeem.amount < amount {
            return Err(CustomErrorCode::InsufficientVaultBalance);
        }
        let mut work = self.ledger.copy();
        match work.burn(ctx.user_mint_token_account, ctx.mint, &authority, amount) {
            Err(e) => {
                return Err(e);
            },
            Ok(()) => {},
        }
        match work.transfer(
            ctx.redeem_vault_token_account,
            ctx.user_vault_token_account,
            &authority,
            amount,
        ) {
            Err(e) => {
                return Err(e);
            },
            Ok(()) => {},
        }
        self.ledger = work;
        self.requests.remove(slot);
        proof {
            let s = self@.requests;
            let o = pre.requests;
            assert forall|i: int, j: int|
                0 <= i < s.len() && 0 <= j < s.len() && i != j implies #[trigger] s[i].user
                != #[trigger] s[j].user by {
                let oi = if i < slot { i } else { i + 1 };
                let oj = if j < slot { j } else { j + 1 };
                assert(s[i] == o[oi]);
                assert(s[j] == o[oj]);
            }
        }
        Ok(
            RedeemCompleted {
                user: ctx.user,
                admin: ctx.admin,
                amount,
                mint: asset.address,
                vault: redeem.mint,
            },
        )
    }

    fn check_owner(&self, program_data: &ProgramData, signer: &Pubkey, signed: bool) -> (r: Result<
        (),
        CustomErrorCode,
    >)
        ensures
            r is Err <==> self@.owner_error(*program_data, *signer, signed) is Some,
            r matches Err(e) ==> self@.owner_error(*program_data, *signer, signed) == Some(e),
    {
        if self.config.is_none() {
            return Err(CustomErrorCode::NotInitialized);
        }
        validate_program_update_authority(&self.authorities.program_data, program_data, signer, signed)
    }

    /// Replaces the freeze administrators; only the deployment owner may.
    pub fn update_freeze_administrators(
        &mut self,
        ctx: &UpdateFreezeAdministrators,
        new_administrators: Vec<Pubkey>,
    ) -> (r: Result<(), CustomErrorCode>)
        requires
            old(self).wf(),
        ensures
            final(self).wf(),
            r is Err <==> old(self)@.update_freeze_administrators_error(*ctx, new_administrators@) is Some,
            r matches Err(e) ==> old(self)@.update_freeze_administrators_error(
                *ctx,
                new_administrators@,
            ) == Some(e) && final(self)@ == old(self)@,
            r is Ok ==> final(self)@ == old(self)@.with_config(
                ConfigView { freeze_administrators: new_administrators@, ..old(self)@.cfg() },
            ),
    {
        match self.check_owner(&ctx.program_data, &ctx.signer, ctx.signed) {
            Err(e) => {
                return Err(e);
            },
            Ok(()) => {},
        }
        if new_administrators.len() > MAX_ADMINISTRATORS {
            return Err(CustomErrorCode::TooManyAdministrators);
        }
        match &mut self.config {
            Some(c) => {
                c.freeze_administrators = new_administrators;
            },
            None => {},
        }
        Ok(())
    }

    /// Replaces the rewards administrators; only the deployment owner may.
    pub fn update_rewards_administrators(
        &mut self,
        ctx: &UpdateRewardsAdministrators,
        new_administrators: Vec<Pubkey>,
    ) -> (r: Result<(), CustomErrorCode>)
        requires
            old(self).wf(),
        ensures
            final(self).wf(),
            r is Err <==> old(self)@.update_rewards_administrators_error(*ctx, new_administrators@) is Some,
            r matches Err(e) ==> old(self)@.update_rewards_administrators_error(
                *ctx,
                new_administrators@,
            ) == Some(e) && final(self)@ == old(self)@,
            r is Ok ==> final(self)@ == old(self)@.with_config(
                ConfigView { rewards_administrators: new_administrators@, ..old(self)@.cfg() },
            ),
    {
        match self.check_owner(&ctx.program_data, &ctx.signer, ctx.signed) {
            Err(e) => {
                return Err(e);
            },
            Ok(()) => {},
        }
        if new_administrators.len() > MAX_ADMINISTRATORS {
            return Err(CustomErrorCode::TooManyAdministrators);
        }
        match &mut self.config {
            Some(c) => {
                c.rewards_administrators = new_administrators;
            },
            None => {},
        }
        Ok(())
    }

    /// Sets the circuit breaker; only the deployment owner may.
    pub fn set_paused(&mut self, ctx: &Pause, paused: bool) -> (r: Result<(), CustomErrorCode>)
        requires
            old(self).wf(),
        ensures
            final(self).wf(),
            r is Err <==> old(self)@.owner_error(ctx.program_data, ctx.signer, ctx.signed) is Some,
            r matches Err(e) ==> old(self)@.owner_error(ctx.program_data, ctx.signer, ctx.signed)
                == Some(e) && final(self)@ == old(self)@,
            r is Ok ==> final(self)@ == old(self)@.with_config(
                ConfigView { paused, ..old(self)@.cfg() },
            ),
    {
        match self.check_owner(&ctx.program_data, &ctx.signer, ctx.signed) {
            Err(e) => {
                return Err(e);
            },
            Ok(()) => {},
        }
        match &mut self.config {
            Some(c) => {
                c.paused = paused;
            },
            None => {},
        }
        Ok(())
    }

    /// Registers (or, with `None`, revokes) the one outside program that may
    /// mint without a proof; only the deployment owner may.
    pub fn update_external_mint_caller(
        &mut self,
        ctx: &UpdateExternalMintCaller,
        caller: Option<Pubkey>,
    ) -> (r: Result<(), CustomErrorCode>)
        requires
            old(self).wf(),
        ensures
            final(self).wf(),
            r is Err <==> old(self)@.owner_error(ctx.program_data, ctx.signer, ctx.signed) is Some,
            r matches Err(e) ==> old(self)@.owner_error(ctx.program_data, ctx.signer, ctx.signed)
                == Some(e) && final(self)@ == old(self)@,
            r is Ok ==> final(self)@ == old(self)@.with_config(
                ConfigView { allow_mint_program_caller: caller, ..old(self)@.cfg() },
            ),
    {
        match self.check_owner(&ctx.program_data, &ctx.signer, ctx.signed) {
            Err(e) => {
                return Err(e);
            },
            Ok(()) => {},
        }
        match &mut self.config {
            Some(c) => {
                c.allow_mint_program_caller = caller;
            },
            None => {},
        }
        Ok(())
    }

    fn set_account_frozen(&mut self, signer: &Pubkey, token_account: usize, mint: usize, frozen: bool) -> (r:
        Result<(), CustomErrorCode>)
        requires
            old(self).wf(),
        ensures
            final(self).wf(),
            r is Err <==> old(self)@.set_frozen_error(*signer, token_account, mint, frozen) is Some,
            r matches Err(e) ==> old(self)@.set_frozen_error(*signer, token_account, mint, frozen)
                == Some(e) && final(self)@ == old(self)@,
            r is Ok ==> final(self)@ == old(self)@.after_set_frozen(token_account, frozen),
    {
        let (is_admin, paused) = match &self.config {
            Some(c) => (contains_key(&c.freeze_administrators, signer), c.paused),
            None => {
                return Err(CustomErrorCode::NotInitialized);
            },
        };
        if token_account >= self.ledger.accounts.len() || mint >= self.ledger.mints.len() {
            return Err(CustomErrorCode::UnknownAccount);
        }
        let asset = self.ledger.mints[mint];
        let authority = self.authorities.freeze_authority;
        if !holds_key(&asset.freeze_authority, &authority) {
            return Err(CustomErrorCode::InvalidFreezeAuthority);
        }
        if !self.ledger.accounts[token_account].mint.same_as(&asset.address) {
            return Err(CustomErrorCode::InvalidMint);
        }
        if paused {
            return Err(CustomErrorCode::ProgramPaused);
        }
        if !is_admin {
            return Err(CustomErrorCode::UnauthorizedFreezeAdministrator);
        }
        self.ledger.set_freeze_state(token_account, mint, &authority, frozen)
    }

    /// A freeze administrator suspends a holding account.
    pub fn freeze_token_account(&mut self, ctx: &FreezeTokenAccount) -> (r: Result<(), CustomErrorCode>)
        requires
            old(self).wf(),
        ensures
            final(self).wf(),
            r is Err <==> old(self)@.set_frozen_error(ctx.signer, ctx.token_account, ctx.mint, true) is Some,
            r matches Err(e) ==> old(self)@.set_frozen_error(ctx.signer, ctx.token_account, ctx.mint, true)
                == Some(e) && final(self)@ == old(self)@,
            r is Ok ==> final(self)@ == old(self)@.after_set_frozen(ctx.token_account, true),
    {
        self.set_account_frozen(&ctx.signer, ctx.token_account, ctx.mint, true)
    }

    /// A freeze administrator resumes a holding account.
    pub fn thaw_token_account(&mut self, ctx: &ThawTokenAccount) -> (r: Result<(), CustomErrorCode>)
        requires
            old(self).wf(),
        ensures
            final(self).wf(),
            r is Err <==> old(self)@.set_frozen_error(ctx.signer, ctx.token_account, ctx.mint, false) is Some,
            r matches Err(e) ==> old(self)@.set_frozen_error(ctx.signer, ctx.token_account, ctx.mint, false)
                == Some(e) && final(self)@ == old(self)@,
            r is Ok ==> final(self)@ == old(self)@.after_set_frozen(ctx.token_account, false),
    {
        self.set_account_frozen(&ctx.signer, ctx.token_account, ctx.mint, false)
    }

    /// Where the epoch numbered `index` stands, if it exists.
    pub fn find_epoch(&self, index: u64) -> (r: Option<usize>)
        ensures
            r matches Some(i) ==> i < self.epochs@.len() && self.epochs@[i as int].index == index,
            r is None ==> !has_epoch(self.epochs@, index),
    {
        let mut i: usize = 0;
        while i < self.epochs.len()
            invariant
                i <= self.epochs@.len(),
                forall|j: int| 0 <= j < i ==> #[trigger] self.epochs@[j].index != index,
            decreases self.epochs.len() - i,
        {
            if self.epochs[i].index == index {
                return Some(i);
            }
            i = i + 1;
        }
        None
    }

    /// Whether `user` has claimed the rewards of epoch `epoch`.
    pub fn is_claimed(&self, epoch: u64, user: &Pubkey) -> (r: bool)
        ensures
            r == has_claim(self.claims@, epoch, *user),
    {
        let mut i: usize = 0;
        while i < self.claims.len()
            invariant
                i <= self.claims@.len(),
                forall|j: int|
                    0 <= j < i ==> !(#[trigger] self.claims@[j].epoch == epoch && self.claims@[j].user
                        == *user),
            decreases self.claims.len() - i,
        {
            if self.claims[i].epoch == epoch && self.claims[i].user.same_as(user) {
                return true;
            }
            i = i + 1;
        }
        false
    }

    /// A rewards administrator publishes the Merkle root of epoch `index`,
    /// stamped with the host's clock `now`; an index is used once.
    pub fn create_rewards_epoch(
        &mut self,
        ctx: &CreateRewardsEpoch,
        index: u64,
        merkle_root: [u8; 32],
        total: u64,
        now: i64,
    ) -> (r: Result<(), CustomErrorCode>)
        requires
            old(self).wf(),
        ensures
            final(self).wf(),
            r is Err <==> old(self)@.create_rewards_epoch_error(*ctx, index) is Some,
            r matches Err(e) ==> old(self)@.create_rewards_epoch_error(*ctx, index) == Some(e)
                && final(self)@ == old(self)@,
            r is Ok ==> final(self)@ == (VaultView {
                epochs: old(self)@.epochs.push(
                    RewardsEpoch { index, merkle_root, total, created_ts: now },
                ),
                ..old(self)@
            }),
    {
        let (is_admin, paused) = match &self.config {
            Some(c) => (contains_key(&c.rewards_administrators, &ctx.admin), c.paused),
            None => {
                return Err(CustomErrorCode::NotInitialized);
            },
        };
        if paused {
            return Err(CustomErrorCode::ProgramPaused);
        }
        if self.find_epoch(index).is_some() {
            return Err(CustomErrorCode::AccountAlreadyInUse);
        }
        if !is_admin {
            return Err(CustomErrorCode::InvalidRewardsAdministrator);
        }
        let ghost pre = self@.epochs;
        self.epochs.push(RewardsEpoch { index, merkle_root, total, created_ts: now });
        proof {
            let s = self@.epochs;
            assert forall|i: int, j: int|
                0 <= i < s.len() && 0 <= j < s.len() && i != j implies #[trigger] s[i].index
                != #[trigger] s[j].index by {
                if i == s.len() - 1 {
                    assert(pre[j].index == s[j].index);
                } else if j == s.len() - 1 {
                    assert(pre[i].index == s[i].index);
                } else {
                    assert(pre[i] == s[i]);
                    assert(pre[j] == s[j]);
                }
            }
        }
        Ok(())
    }

    /// Claims `amount` of epoch `ctx.epoch` for the caller: the proof must
    /// lead from the caller's leaf to the epoch's root, and each epoch can
    /// be claimed once per user.
    pub fn claim_rewards(&mut self, ctx: &ClaimRewards, amount: u64, proof: Vec<ProofNode>) -> (r:
        Result<RewardsClaimed, CustomErrorCode>)
        requires
            old(self).wf(),
        ensures
            final(self).wf(),
            r is Err <==> old(self)@.claim_rewards_error(*ctx, amount, proof@) is Some,
            r matches Err(e) ==> old(self)@.claim_rewards_error(*ctx, amount, proof@) == Some(e)
                && final(self)@ == old(self)@,
            r matches Ok(ev) ==> final(self)@ == old(self)@.after_claim_rewards(*ctx, amount) && ev
                == (RewardsClaimed {
                user: ctx.user,
                epoch: ctx.epoch,
                amount,
                mint: old(self)@.cfg().mint,
                vault: old(self)@.cfg().vault,
            }),
    {
        let ghost pre = self@;
        if amount == 0 {
            return Err(CustomErrorCode::InvalidAmount);
        }
        let (vault_asset, synthetic, paused) = match &self.config {
            Some(c) => (c.vault, c.mint, c.paused),
            None => {
                return Err(CustomErrorCode::NotInitialized);
            },
        };
        if paused {
            return Err(CustomErrorCode::ProgramPaused);
        }
        let slot = match self.find_epoch(ctx.epoch) {
            Some(i) => i,
            None => {
                return Err(CustomErrorCode::InvalidRewardsEpoch);
            },
        };
        proof {
            let k = epoch_slot(pre.epochs, ctx.epoch);
            assert(pre.epochs[slot as int].index == ctx.epoch);
            assert(0 <= k < pre.epochs.len() && pre.epochs[k].index == ctx.epoch);
            assert(k == slot);
        }
        let epoch = self.epochs[slot];
        if ctx.user_mint_token_account >= self.ledger.accounts.len() || ctx.mint
            >= self.ledger.mints.len() {
            return Err(CustomErrorCode::UnknownAccount);
        }
        let asset = self.ledger.mints[ctx.mint];
        let user_mint = self.ledger.accounts[ctx.user_mint_token_account];
        let authority = self.authorities.mint_authority;
        if !asset.address.same_as(&synthetic) {
            return Err(CustomErrorCode::InvalidMint);
        }
        if !holds_key(&asset.mint_authority, &authority) {
            return Err(CustomErrorCode::InvalidMintAuthority);
        }
        if !user_mint.mint.same_as(&synthetic) {
            return Err(CustomErrorCode::InvalidMint);
        }
        if !user_mint.owner.same_as(&ctx.user) {
            return Err(CustomErrorCode::InvalidTokenOwner);
        }
        if !verify_proof(&ctx.user, amount, epoch.index, &proof, &epoch.merkle_root) {
            return Err(CustomErrorCode::InvalidMerkleProof);
        }
        if self.is_claimed(epoch.index, &ctx.user) {
            return Err(CustomErrorCode::RewardsAlreadyClaimed);
        }
        match self.ledger.mint_to(ctx.mint, ctx.user_mint_token_account, &authority, amount) {
            Err(e) => {
                return Err(e);
            },
            Ok(()) => {},
        }
        self.claims.push(ClaimRecord { epoch: ctx.epoch, user: ctx.user });
        proof {
            let s = self@.claims;
            let o = pre.claims;
            assert forall|i: int, j: int|
                0 <= i < s.len() && 0 <= j < s.len() && i != j implies (#[trigger] s[i].epoch
                != #[trigger] s[j].epoch || s[i].user != s[j].user) by {
                if i == s.len() - 1 {
                    assert(o[j] == s[j]);
                } else if j == s.len() - 1 {
                    assert(o[i] == s[i]);
                } else {
                    assert(o[i] == s[i]);
                    assert(o[j] == s[j]);
                }
            }
        }
        Ok(RewardsClaimed { user: ctx.user, epoch: ctx.epoch, amount, mint: synthetic, vault: vault_asset })
    }

    /// The registered outside program mints `amount` of synthetic asset
    /// into `ctx.destination`, with no proof.
    pub fn external_program_mint(&mut self, ctx: &ExternalProgramMint, amount: u64) -> (r: Result<
        ExternalProgramMintEvent,
        CustomErrorCode,
    >)
        requires
            old(self).wf(),
        ensures
            final(self).wf(),
            r is Err <==> old(self)@.external_program_mint_error(*ctx, amount) is Some,
            r matches Err(e) ==> old(self)@.external_program_mint_error(*ctx, amount) == Some(e)
                && final(self)@ == old(self)@,
            r matches Ok(ev) ==> final(self)@ == old(self)@.after_external_program_mint(*ctx, amount)
                && ev == (ExternalProgramMintEvent {
                admin: ctx.signer,
                external_mint_program_caller: ctx.external_mint_program_caller,
                destination: old(self)@.account(ctx.destination).address,
                amount,
                mint: old(self)@.cfg().mint,
                vault: old(self)@.cfg().vault,
            }),
    {
        if amount == 0 {
            return Err(CustomErrorCode::InvalidAmount);
        }
        let (vault_asset, synthetic, paused, allowed) = match &self.config {
            Some(c) => (c.vault, c.mint, c.paused, c.allow_mint_program_caller),
            None => {
                return Err(CustomErrorCode::NotInitialized);
            },
        };
        if paused {
            return Err(CustomErrorCode::ProgramPaused);
        }
        if !holds_key(&allowed, &ctx.external_mint_program_caller) {
            return Err(CustomErrorCode::UnauthorizedExternalCaller);
        }
        if ctx.destination >= self.ledger.accounts.len() || ctx.mint >= self.ledger.mints.len() {
            return Err(CustomErrorCode::UnknownAccount);
        }
        let asset = self.ledger.mints[ctx.mint];
        let destination = self.ledger.accounts[ctx.destination];
        let authority = self.authorities.mint_authority;
        if !asset.address.same_as(&synthetic) {
            return Err(CustomErrorCode::InvalidMint);
        }
        if !holds_key(&asset.mint_authority, &authority) {
            return Err(CustomErrorCode::InvalidMintAuthority);
        }
        if !destination.mint.same_as(&synthetic) {
            return Err(CustomErrorCode::InvalidMint);
        }
        match self.ledger.mint_to(ctx.mint, ctx.destination, &authority, amount) {
            Err(e) => {
                return Err(e);
            },
            Ok(()) => {},
        }
        Ok(
            ExternalProgramMintEvent {
                admin: ctx.signer,
                external_mint_program_caller: ctx.external_mint_program_caller,
                destination: destination.address,
                amount,
                mint: synthetic,
                vault: vault_asset,
            },
        )
    }
}

} // verus!
