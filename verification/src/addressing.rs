//! Deterministic address derivation for metadata records: a one-way,
//! domain-separated hash over a fixed prefix tag, the metadata registry's
//! identity and the mint's identity. Any verifier can re-derive the same
//! address byte for byte from the same pair.

use vstd::prelude::*;
use anchor_lang::solana_program::pubkey::Pubkey;
use crate::identity::Identity;

verus! {

/// The address the metadata registry derives for a mint: a function of the
/// registry's and the mint's identities alone. `None` in the statistically
/// improbable event that no bump seed yields a valid derived address.
pub uninterp spec fn metadata_address_of(registry: Seq<u8>, mint: Seq<u8>) -> Option<Seq<u8>>;

/// Relies on `Pubkey::try_find_program_address`: the result is a
/// deterministic hash of the seeds (a fixed prefix tag, the registry, the
/// mint) and the program id (the registry) alone, 32 bytes long, and `None`
/// only when no bump seed gives a valid off-curve address.
#[verifier::external_body]
pub(crate) fn derive_metadata_address(registry: &Identity, mint: &Identity) -> (r: Option<Identity>)
    ensures
        r is Some <==> metadata_address_of(registry@, mint@) is Some,
        r matches Some(a) ==> Some(a@) == metadata_address_of(registry@, mint@) && a@.len() == 32,
{
    let registry_key = Pubkey::new_from_array(registry.0);
    let mint_key = Pubkey::new_from_array(mint.0);
    let seeds: [&[u8]; 3] = [b"metadata", registry_key.as_ref(), mint_key.as_ref()];
    Pubkey::try_find_program_address(&seeds, &registry_key)
        .map(|found: (Pubkey, u8)| Identity(found.0.to_bytes()))
}

} // verus!
