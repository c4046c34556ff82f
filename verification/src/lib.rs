//! Delegated governance voting for validators: a validator registers a
//! delegation record binding its identity to a less-sensitive governance
//! key, and that key may then cast votes on the validator's behalf through
//! an authority-substitution proxy; the validator alone can revoke the
//! binding.

pub mod errors;
pub mod keys;
pub mod laws;
pub mod pda;
pub mod registry;
pub mod state;
pub mod vote;

use vstd::prelude::*;
use crate::errors::DelegationError;
use crate::keys::Pubkey32;
use crate::pda::{canonical_pda, find_pda, DELEGATION_TAG};
use crate::registry::{
    create_applied, create_failed, revoke_applied, revoke_failed, CreateDelegation,
    DelegationRegistry, RevokeDelegation,
};
use crate::vote::{vote_failed, vote_forwarded, CastVoteAction, ExecuteVoteAsDelegate, Vote};

verus! {

/// Registers a delegation for the signing validator: derives the record's
/// canonical address and nonce, and writes the record if the address is
/// free.
///
/// Returns `None` only where the host's bump search finds no viable nonce
/// for this validator — the host aborts the transaction in that case — with
/// the registry left untouched.
pub fn create_delegation(
    registry: &mut DelegationRegistry,
    ctx: &CreateDelegation,
    governance_key: Pubkey32,
) -> (r: Option<Result<(), DelegationError>>)
    requires
        old(registry).wf(),
    ensures
        final(registry).wf(),
        match r {
            None => canonical_pda(ctx.validator_identity@, old(registry).program_id@) is None
                && *final(registry) == *old(registry),
            Some(res) => (match res {
                Ok(_) => create_applied(
                    *old(registry),
                    *final(registry),
                    ctx.validator_identity,
                    governance_key,
                    ctx.deposit,
                ),
                Err(e) => *final(registry) == *old(registry) && create_failed(
                    *old(registry),
                    ctx.validator_identity,
                    e,
                ),
            }),
        },
{
    let bump = match find_pda(&DELEGATION_TAG, &ctx.validator_identity, &registry.program_id) {
        Some(p) => p.1,
        None => {
            return None;
        },
    };
    Some(ctx.create_delegation_handler(governance_key, bump, registry))
}

/// Revokes the signing validator's delegation: erases the record and
/// returns the deposit owed back to the validator.
pub fn revoke_delegation(
    registry: &mut DelegationRegistry,
    ctx: &RevokeDelegation,
) -> (r: Result<u64, DelegationError>)
    requires
        old(registry).wf(),
    ensures
        final(registry).wf(),
        match r {
            Ok(refund) => revoke_applied(*old(registry), *final(registry), *ctx, refund),
            Err(e) => *final(registry) == *old(registry) && revoke_failed(*old(registry), *ctx, e),
        },
{
    ctx.revoke_delegation_handler(registry)
}

/// Casts a vote on the validator's behalf, signed by the delegate key:
/// checks the record's binding and hands back the governance call together
/// with the derivation proof standing in for the validator's signature.
pub fn execute_vote_as_delegate(
    registry: &DelegationRegistry,
    ctx: &ExecuteVoteAsDelegate,
    vote: &Vote,
) -> (r: Result<CastVoteAction, DelegationError>)
    requires
        registry.wf(),
    ensures
        match r {
            Ok(action) => vote_forwarded(*registry, *ctx, vote@, action),
            Err(e) => vote_failed(*registry, *ctx, e),
        },
{
    ctx.execute_vote_as_delegate_handler(registry, vote)
}

} // verus!
