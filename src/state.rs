//! The persisted records: the registry, redemption requests, reward epochs
//! and claim markers.
use vstd::prelude::*;
use crate::keys::Pubkey;

verus! {

/// Most members an administrator set may hold.
pub const MAX_ADMINISTRATORS: usize = 5;

/// The single configuration record.
pub struct Config {
    /// The deposit asset.
    pub vault: Pubkey,
    /// The synthetic asset minted against deposits.
    pub mint: Pubkey,
    pub freeze_administrators: Vec<Pubkey>,
    pub rewards_administrators: Vec<Pubkey>,
    /// Owner of the deposit-holding account when the registry was created.
    pub vault_authority: Pubkey,
    /// The account that pays redemptions out.
    pub redeem_vault: Pubkey,
    pub paused: bool,
    /// The one outside program that may mint without a proof, if any.
    pub allow_mint_program_caller: Option<Pubkey>,
}

/// The registry as plain values.
pub struct ConfigView {
    pub vault: Pubkey,
    pub mint: Pubkey,
    pub freeze_administrators: Seq<Pubkey>,
    pub rewards_administrators: Seq<Pubkey>,
    pub vault_authority: Pubkey,
    pub redeem_vault: Pubkey,
    pub paused: bool,
    pub allow_mint_program_caller: Option<Pubkey>,
}

impl ConfigView {
    pub open spec fn wf(self) -> bool {
        &&& self.freeze_administrators.len() <= MAX_ADMINISTRATORS
        &&& self.rewards_administrators.len() <= MAX_ADMINISTRATORS
    }
}

impl Config {
    pub open spec fn view(&self) -> ConfigView {
        ConfigView {
            vault: self.vault,
            mint: self.mint,
            freeze_administrators: self.freeze_administrators@,
            rewards_administrators: self.rewards_administrators@,
            vault_authority: self.vault_authority,
            redeem_vault: self.redeem_vault,
            paused: self.paused,
            allow_mint_program_caller: self.allow_mint_program_caller,
        }
    }
}

/// One reward-distribution period, immutable once created.
#[derive(Clone, Copy, Debug)]
pub struct RewardsEpoch {
    pub index: u64,
    pub merkle_root: [u8; 32],
    /// Informational sum of the period's allocations.
    pub total: u64,
    pub created_ts: i64,
}

/// Marks that `user` has claimed the rewards of epoch `epoch`.
#[derive(Clone, Copy, Debug)]
pub struct ClaimRecord {
    pub epoch: u64,
    pub user: Pubkey,
}

/// A pending withdrawal; its existence locks the user for redemption.
#[derive(Clone, Copy, Debug)]
pub struct RedemptionRequest {
    pub user: Pubkey,
    /// Synthetic-asset units requested.
    pub amount: u64,
    pub vault_mint: Pubkey,
    pub mint: Pubkey,
}

/// One Merkle proof element.
#[derive(Clone, Copy, Debug)]
pub struct ProofNode {
    pub sibling: [u8; 32],
    /// The sibling stands on the left of the running node.
    pub is_left: bool,
}

/// The deployment-metadata record presented to the owner guard.
#[derive(Clone, Copy, Debug)]
pub struct ProgramData {
    /// Where the record claims to live.
    pub address: Pubkey,
    /// The recorded deployment owner, if any.
    pub upgrade_authority: Option<Pubkey>,
}

/// The non-human signers of this program and the address of its deployment
/// record, each derived from a fixed seed and the program's identity.
#[derive(Clone, Copy, Debug)]
pub struct DerivedAuthorities {
    pub program_id: Pubkey,
    pub mint_authority: Pubkey,
    pub freeze_authority: Pubkey,
    pub redeem_vault_authority: Pubkey,
    pub loader_id: Pubkey,
    pub program_data: Pubkey,
}

} // verus!
