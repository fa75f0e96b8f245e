//! Authorization and bookkeeping logic of a custodial vault: deposits are
//! pegged 1:1 into a synthetic asset, withdrawals go through a two-phase
//! redemption, holder accounts can be frozen by administrators, and rewards
//! are claimed per epoch against a Merkle root.
pub mod keys;
pub mod error;
pub mod crypto;
pub mod state;
pub mod merkle;
pub mod ledger;
pub mod guard;
pub mod events;
pub mod account_structs;
pub mod processor;
pub mod lemmas;
