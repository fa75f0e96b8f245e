//! Notifications reported by successful operations.
use vstd::prelude::*;
use crate::keys::Pubkey;

verus! {

#[derive(Clone, Copy, Debug)]
pub struct DepositEvent {
    pub user: Pubkey,
    pub amount: u64,
    pub mint: Pubkey,
    pub vault: Pubkey,
}

#[derive(Clone, Copy, Debug)]
pub struct RewardsClaimed {
    pub user: Pubkey,
    pub epoch: u64,
    pub amount: u64,
    pub mint: Pubkey,
    pub vault: Pubkey,
}

#[derive(Clone, Copy, Debug)]
pub struct RedemptionRequested {
    pub user: Pubkey,
    pub amount: u64,
    pub vault_mint: Pubkey,
    pub mint: Pubkey,
}

#[derive(Clone, Copy, Debug)]
pub struct RedeemCompleted {
    pub user: Pubkey,
    pub admin: Pubkey,
    pub amount: u64,
    pub mint: Pubkey,
    pub vault: Pubkey,
}

#[derive(Clone, Copy, Debug)]
pub struct ExternalProgramMintEvent {
    pub admin: Pubkey,
    pub external_mint_program_caller: Pubkey,
    pub destination: Pubkey,
    pub amount: u64,
    pub mint: Pubkey,
    pub vault: Pubkey,
}

} // verus!
