//! Digests and derived addresses, computed by the host chain's primitives.
use vstd::prelude::*;
use crate::keys::Pubkey;

verus! {

/// The SHA-256 digest of a byte string.
pub uninterp spec fn sha256_of(data: Seq<u8>) -> Seq<u8>;

/// The address derived from one seed and an owning program, if a bump seed
/// makes it fall off the curve; the bump itself is not kept.
pub uninterp spec fn derived_address_of(seed: Seq<u8>, program_id: Seq<u8>) -> Option<Seq<u8>>;

/// Relies on anchor_lang::solana_program::hash::hashv: the SHA-256 digest of
/// the concatenated slices, here a single one.
#[verifier::external_body]
pub(crate) fn sha256(data: &[u8]) -> (r: [u8; 32])
    ensures
        r@ == sha256_of(data@),
{
    anchor_lang::solana_program::hash::hashv(&[data]).to_bytes()
}

/// Relies on Pubkey::try_find_program_address of the host chain: the first
/// off-curve address for the seed and the program, searching bumps down from
/// 255, or none.
#[verifier::external_body]
pub(crate) fn try_find_program_address(seed: &[u8], program_id: &Pubkey) -> (r: Option<Pubkey>)
    ensures
        r.is_some() == derived_address_of(seed@, program_id@).is_some(),
        r matches Some(k) ==> derived_address_of(seed@, program_id@) == Some(k@),
{
    let id = anchor_lang::prelude::Pubkey::new_from_array(program_id.bytes);
    anchor_lang::prelude::Pubkey::try_find_program_address(&[seed], &id)
        .map(|found| Pubkey { bytes: found.0.to_bytes() })
}

/// The identity of the upgradeable loader,
/// `BPFLoaderUpgradeab1e11111111111111111111111` in base58.
pub open spec fn upgradeable_loader() -> Seq<u8> {
    seq![
        2u8, 168, 246, 145, 78, 136, 161, 176, 226, 16, 21, 62, 247, 99, 174, 43, 0, 194, 185, 61,
        22, 193, 36, 210, 192, 83, 122, 16, 4, 128, 0, 0,
    ]
}

/// Relies on anchor_lang::solana_program::bpf_loader_upgradeable::id: the
/// fixed identity of the loader that records each deployment's owner.
#[verifier::external_body]
pub(crate) fn upgradeable_loader_id() -> (r: Pubkey)
    ensures
        r@ == upgradeable_loader(),
{
    Pubkey { bytes: anchor_lang::solana_program::bpf_loader_upgradeable::id().to_bytes() }
}

} // verus!
