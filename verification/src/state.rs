use vstd::prelude::*;
use crate::keys::Pubkey32;

verus! {

/// Bytes of storage a delegation record occupies on the host ledger: the
/// host's record-type tag, the two keys, and the derivation nonce.
pub const RECORD_SPACE: u64 = 8 + 32 + 32 + 1;

/// The persistent delegation record: it binds a validator identity to the
/// delegate key that may vote on its behalf.
///
/// The record lives at the address derived from the namespace tag and
/// `validator_identity`; `bump` is the derivation nonce that makes that
/// address valid, stored so the record can re-assert its own derivation
/// without recomputation ambiguity.
#[derive(Clone, Copy, Debug)]
pub struct GovernanceDelegate {
    /// The validator's long-term identity key; immutable after creation.
    pub validator_identity: Pubkey32,
    /// The key authorized to vote on the validator's behalf; set at creation
    /// and never mutated.
    pub governance_key: Pubkey32,
    /// The derivation nonce ("bump seed") of the record's address.
    pub bump: u8,
}

} // verus!
