//! The typed failures of every operation.
use vstd::prelude::*;

verus! {

/// Why an operation was rejected. A rejected operation leaves every record
/// and every ledger account exactly as it was.
#[derive(Clone, Copy, Debug, PartialEq, Eq, Structural)]
pub enum CustomErrorCode {
    InvalidAmount,
    InvalidAuthority,
    InsufficientBalance,
    InvalidMint,
    InvalidVaultMint,
    InvalidMintAuthority,
    InsufficientVaultBalance,
    InvalidVaultAuthority,
    InvalidFreezeAuthority,
    InvalidProgramData,
    NoUpgradeAuthority,
    InvalidUpgradeAuthority,
    MissingSigner,
    TooManyAdministrators,
    UnauthorizedFreezeAdministrator,
    InvalidRewardsEpoch,
    InvalidMerkleProof,
    RewardsAlreadyClaimed,
    InvalidRewardsAdministrator,
    InsufficientRedeemVaultFunds,
    InvalidTokenOwner,
    UnauthorizedExternalCaller,
    ProgramPaused,
    /// A record already exists at the address the operation would create.
    AccountAlreadyInUse,
    /// The record the operation resolves by does not exist.
    AccountNotInitialized,
    /// The registry has not been created yet.
    NotInitialized,
    /// A handle does not name an account or asset of the ledger.
    UnknownAccount,
    /// A derived authority could not be computed.
    InvalidSeeds,
    /// The ledger refused a movement: the holding account is frozen.
    AccountFrozen,
    /// The ledger refused a movement: the source holds too little.
    InsufficientFunds,
    /// The ledger refused a movement: the two accounts hold different assets.
    MintMismatch,
    /// The ledger refused an action: the acting principal lacks the right.
    OwnerMismatch,
    /// The ledger refused an action: a balance or a supply would overflow.
    Overflow,
    /// The ledger refused an action: the account is already in the asked state.
    InvalidState,
}

} // verus!
