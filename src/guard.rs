//! The owner guard: binds a configuration change to the deployment's
//! recorded owner.
use vstd::prelude::*;
use crate::error::CustomErrorCode;
use crate::keys::{holds_key, Pubkey};
use crate::state::ProgramData;

verus! {

/// Why `signer` may not act as the owner of the deployment whose metadata
/// record must live at `expected`.
pub open spec fn update_authority_error(
    expected: Pubkey,
    program_data: ProgramData,
    signer: Pubkey,
    signed: bool,
) -> Option<CustomErrorCode> {
    if program_data.address != expected {
        Some(CustomErrorCode::InvalidProgramData)
    } else if program_data.upgrade_authority is None {
        Some(CustomErrorCode::NoUpgradeAuthority)
    } else if program_data.upgrade_authority != Some(signer) {
        Some(CustomErrorCode::InvalidUpgradeAuthority)
    } else if !signed {
        Some(CustomErrorCode::MissingSigner)
    } else {
        None
    }
}

/// Accepts only the recorded owner of the genuine deployment record, and
/// only when that owner authorized the call.
pub fn validate_program_update_authority(
    expected: &Pubkey,
    program_data: &ProgramData,
    signer: &Pubkey,
    signed: bool,
) -> (r: Result<(), CustomErrorCode>)
    ensures
        r is Err <==> update_authority_error(*expected, *program_data, *signer, signed).is_some(),
        r matches Err(e) ==> update_authority_error(*expected, *program_data, *signer, signed)
            == Some(e),
{
    if !program_data.address.same_as(expected) {
        return Err(CustomErrorCode::InvalidProgramData);
    }
    if program_data.upgrade_authority.is_none() {
        return Err(CustomErrorCode::NoUpgradeAuthority);
    }
    if !holds_key(&program_data.upgrade_authority, signer) {
        return Err(CustomErrorCode::InvalidUpgradeAuthority);
    }
    if !signed {
        return Err(CustomErrorCode::MissingSigner);
    }
    Ok(())
}

} // verus!
