use vstd::prelude::*;
use crate::errors::DelegationError;
use crate::keys::Pubkey32;
use crate::pda::{lemma_pda_search_found, DELEGATION_TAG};
use crate::registry::{
    create_applied, create_failed, lemma_index_unique, revoke_applied, revoke_failed,
    DelegationRegistry, RevokeDelegation,
};
use crate::vote::{vote_checks_pass, vote_failed, ExecuteVoteAsDelegate};

verus! {

/// At most one delegation record exists at any derived address: in a
/// well-formed registry, any two records stored at the same address are one
/// and the same. Since a validator's record address is a function of its
/// identity alone, a validator can never hold two records.
pub proof fn lemma_at_most_one_record(reg: DelegationRegistry, i: int, j: int)
    requires
        reg.wf(),
        0 <= i < reg.records@.len(),
        0 <= j < reg.records@.len(),
        reg.records@[i].address@ == reg.records@[j].address@,
    ensures
        i == j,
{
    if i < j {
        assert(reg.records@[i].address@ != reg.records@[j].address@);
    }
    if j < i {
        assert(reg.records@[j].address@ != reg.records@[i].address@);
    }
}

/// Creation immediately followed by revocation undoes everything: after a
/// successful creation, a revocation signed by the same validator against
/// the new record's address cannot fail, refunds exactly the deposit the
/// creation debited, and leaves the registry's records as they were — in
/// particular, no record remains at the validator's derived address.
pub proof fn lemma_create_then_revoke(
    r0: DelegationRegistry,
    r1: DelegationRegistry,
    validator: Pubkey32,
    governance_key: Pubkey32,
    deposit: u64,
    ctx: RevokeDelegation,
)
    requires
        r0.wf(),
        r1.wf(),
        create_applied(r0, r1, validator, governance_key, deposit),
        ctx.delegation_account@ == r1.records@.last().address@,
        ctx.validator_identity@ == validator@,
    ensures
        forall|e: DelegationError| !revoke_failed(r1, ctx, e),
        forall|r2: DelegationRegistry, refund: u64|
            revoke_applied(r1, r2, ctx, refund) ==> refund == deposit && r2.records@
                == r0.records@ && !r2.has_record_at(ctx.delegation_account@),
{
    let last: int = r1.records@.len() - 1;
    lemma_index_unique(r1, last);
    assert(r1.record_at(ctx.delegation_account@) == r1.records@.last());
    assert forall|e: DelegationError| !revoke_failed(r1, ctx, e) by {
        match e {
            DelegationError::RecordNotFound => {},
            DelegationError::Unauthorized => {},
            _ => {},
        }
    }
    assert forall|r2: DelegationRegistry, refund: u64|
        revoke_applied(r1, r2, ctx, refund) implies refund == deposit && r2.records@
        == r0.records@ && !r2.has_record_at(ctx.delegation_account@) by {
        assert(r1.index_at(ctx.delegation_account@) == last);
        assert(r2.records@ =~= r1.records@.remove(last));
        assert(r1.records@.remove(last) =~= r1.records@.take(last));
        assert(r1.records@.take(last) == r0.records@);
        assert(!r0.has_record_at(ctx.delegation_account@));
    }
}

/// A second creation for the same validator collides: after a successful
/// creation, the collision condition behind `AlreadyDelegated` holds for
/// that validator, no registry state can satisfy a further successful
/// creation for it, and the stored record still shows the first delegate
/// key.
pub proof fn lemma_second_create_collides(
    r0: DelegationRegistry,
    r1: DelegationRegistry,
    validator: Pubkey32,
    governance_key: Pubkey32,
    deposit: u64,
)
    requires
        r0.wf(),
        r1.wf(),
        create_applied(r0, r1, validator, governance_key, deposit),
    ensures
        create_failed(r1, validator, DelegationError::AlreadyDelegated),
        forall|r2: DelegationRegistry, g2: Pubkey32, d2: u64|
            !create_applied(r1, r2, validator, g2, d2),
        r1.record_at(r1.records@.last().address@).record.governance_key@ == governance_key@,
{
    let last: int = r1.records@.len() - 1;
    lemma_index_unique(r1, last);
    assert(r1.has_record_at(r1.records@.last().address@));
    assert forall|r2: DelegationRegistry, g2: Pubkey32, d2: u64|
        !create_applied(r1, r2, validator, g2, d2) by {
        if create_applied(r1, r2, validator, g2, d2) {
            assert(r2.records@.last().address@ == r1.records@.last().address@);
            assert(!r1.has_record_at(r2.records@.last().address@));
        }
    }
}

/// Revocation is not silently repeatable: after a successful revocation no
/// record remains at the revoked address, so a second revocation against it
/// fails with `RecordNotFound` rather than succeeding twice.
pub proof fn lemma_revoke_then_revoke(
    r0: DelegationRegistry,
    r1: DelegationRegistry,
    ctx: RevokeDelegation,
    refund: u64,
)
    requires
        r0.wf(),
        revoke_applied(r0, r1, ctx, refund),
    ensures
        !r1.has_record_at(ctx.delegation_account@),
        revoke_failed(r1, ctx, DelegationError::RecordNotFound),
{
    let i = r0.index_at(ctx.delegation_account@);
    assert(0 <= i < r0.records@.len() && r0.records@[i].address@ == ctx.delegation_account@);
    r0.records@.remove_ensures(i);
    assert forall|j: int|
        0 <= j < r1.records@.len() implies r1.records@[j].address@
        != ctx.delegation_account@ by {
        let j0: int = if j < i {
            j
        } else {
            j + 1
        };
        assert(r1.records@[j] == r0.records@[j0]);
        lemma_at_most_one_record_contra(r0, i, j0, ctx.delegation_account@);
    }
}

/// Helper: in a well-formed registry a record at a distinct index from the
/// one stored at an address cannot share that address.
proof fn lemma_at_most_one_record_contra(
    reg: DelegationRegistry,
    i: int,
    j: int,
    addr: Seq<u8>,
)
    requires
        reg.wf(),
        0 <= i < reg.records@.len(),
        0 <= j < reg.records@.len(),
        i != j,
        reg.records@[i].address@ == addr,
    ensures
        reg.records@[j].address@ != addr,
{
    if reg.records@[j].address@ == addr {
        lemma_at_most_one_record(reg, i, j);
    }
}

/// A freshly created binding lets the delegate vote: after a successful
/// creation, a vote request naming the new record's address, the same
/// validator identity and the same delegate key passes every proxy
/// precondition, and no proxy error condition holds for it.
pub proof fn lemma_create_enables_delegate_vote(
    r0: DelegationRegistry,
    r1: DelegationRegistry,
    validator: Pubkey32,
    governance_key: Pubkey32,
    deposit: u64,
    ctx: ExecuteVoteAsDelegate,
)
    requires
        r0.wf(),
        r1.wf(),
        create_applied(r0, r1, validator, governance_key, deposit),
        ctx.delegation_account@ == r1.records@.last().address@,
        ctx.validator_identity@ == validator@,
        ctx.governance_key@ == governance_key@,
    ensures
        vote_checks_pass(r1, ctx),
        forall|e: DelegationError| !vote_failed(r1, ctx, e),
{
    let last: int = r1.records@.len() - 1;
    lemma_index_unique(r1, last);
    assert(r1.record_at(ctx.delegation_account@) == r1.records@.last());
    lemma_pda_search_found(DELEGATION_TAG@, validator@, r0.program_id@, 255);
    assert(vote_checks_pass(r1, ctx));
    assert forall|e: DelegationError| !vote_failed(r1, ctx, e) by {
        match e {
            DelegationError::RecordNotFound => {},
            DelegationError::AddressMismatch => {},
            DelegationError::KeyMismatch => {},
            _ => {},
        }
    }
}

} // verus!
