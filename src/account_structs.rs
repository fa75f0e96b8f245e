//! What each operation is handed: the acting principals and the ledger
//! handles of the accounts and assets it reads or moves.
use vstd::prelude::*;
use crate::keys::Pubkey;
use crate::state::ProgramData;

verus! {

#[derive(Clone, Copy, Debug)]
pub struct Initialize {
    pub signer: Pubkey,
    /// The deposit-holding account.
    pub vault_token_account: usize,
    /// The account redemptions are paid from.
    pub redeem_vault_token_account: usize,
}

/// An owner-only configuration change.
#[derive(Clone, Copy, Debug)]
pub struct Pause {
    pub program_data: ProgramData,
    pub signer: Pubkey,
    /// Whether the signer authorized the call.
    pub signed: bool,
}

#[derive(Clone, Copy, Debug)]
pub struct UpdateFreezeAdministrators {
    pub program_data: ProgramData,
    pub signer: Pubkey,
    pub signed: bool,
}

#[derive(Clone, Copy, Debug)]
pub struct UpdateRewardsAdministrators {
    pub program_data: ProgramData,
    pub signer: Pubkey,
    pub signed: bool,
}

#[derive(Clone, Copy, Debug)]
pub struct UpdateExternalMintCaller {
    pub program_data: ProgramData,
    pub signer: Pubkey,
    pub signed: bool,
}

#[derive(Clone, Copy, Debug)]
pub struct Deposit {
    pub signer: Pubkey,
    pub vault_token_account: usize,
    /// The synthetic asset.
    pub mint: usize,
    pub user_vault_token_account: usize,
    pub user_mint_token_account: usize,
}

#[derive(Clone, Copy, Debug)]
pub struct FreezeTokenAccount {
    pub signer: Pubkey,
    pub token_account: usize,
    pub mint: usize,
}

#[derive(Clone, Copy, Debug)]
pub struct ThawTokenAccount {
    pub signer: Pubkey,
    pub token_account: usize,
    pub mint: usize,
}

#[derive(Clone, Copy, Debug)]
pub struct CreateRewardsEpoch {
    pub admin: Pubkey,
}

#[derive(Clone, Copy, Debug)]
pub struct ClaimRewards {
    pub user: Pubkey,
    /// The index of the epoch claimed from.
    pub epoch: u64,
    pub mint: usize,
    pub user_mint_token_account: usize,
}

#[derive(Clone, Copy, Debug)]
pub struct RequestRedeem {
    pub signer: Pubkey,
    pub user_mint_token_account: usize,
    pub mint: usize,
    /// The operational balance the redeem-vault authority holds on the host.
    pub redeem_vault_reserve: u64,
}

#[derive(Clone, Copy, Debug)]
pub struct CompleteRedeem {
    pub admin: Pubkey,
    /// The user whose request is completed.
    pub user: Pubkey,
    pub user_mint_token_account: usize,
    pub user_vault_token_account: usize,
    pub redeem_vault_token_account: usize,
    pub mint: usize,
}

#[derive(Clone, Copy, Debug)]
pub struct ExternalProgramMint {
    /// The program on whose behalf the mint is asked.
    pub external_mint_program_caller: Pubkey,
    pub signer: Pubkey,
    pub mint: usize,
    pub destination: usize,
}

} // verus!
