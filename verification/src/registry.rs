use vstd::prelude::*;
use crate::errors::DelegationError;
use crate::keys::Pubkey32;
use crate::pda::{canonical_pda, create_pda, lemma_pda_search_found, DELEGATION_TAG};
use crate::state::GovernanceDelegate;

verus! {

/// One account of this program as the host ledger holds it: a delegation
/// record, the address it lives at, and the storage deposit the host charged
/// for it.
#[derive(Clone, Copy)]
pub struct StoredRecord {
    pub address: Pubkey32,
    pub record: GovernanceDelegate,
    pub deposit: u64,
}

/// All delegation records of this program on the host ledger, together with
/// the program's own identity.
///
/// The program identity is process-wide immutable configuration: set once at
/// construction, never mutated, consumed only for address derivation.
pub struct DelegationRegistry {
    pub program_id: Pubkey32,
    pub records: Vec<StoredRecord>,
}

impl DelegationRegistry {
    /// Well-formedness: no two records share an address. The host enforces
    /// this by refusing to initialize an account that already exists.
    pub open spec fn wf(self) -> bool {
        forall|i: int, j: int|
            0 <= i < j < self.records@.len() ==> self.records@[i].address@ != self.records@[j].address@
    }

    /// Whether some record is stored at an address.
    pub open spec fn has_record_at(self, addr: Seq<u8>) -> bool {
        exists|i: int| 0 <= i < self.records@.len() && self.records@[i].address@ == addr
    }

    /// The index of the record stored at an address; meaningful only where
    /// `has_record_at(addr)` holds.
    pub open spec fn index_at(self, addr: Seq<u8>) -> int {
        choose|i: int| 0 <= i < self.records@.len() && self.records@[i].address@ == addr
    }

    /// The record stored at an address; meaningful only where
    /// `has_record_at(addr)` holds.
    pub open spec fn record_at(self, addr: Seq<u8>) -> StoredRecord {
        self.records@[self.index_at(addr)]
    }

    /// An empty registry for a program identity.
    pub fn new(program_id: Pubkey32) -> (r: DelegationRegistry)
        ensures
            r.wf(),
            r.program_id == program_id,
            r.records@.len() == 0,
    {
        DelegationRegistry { program_id, records: Vec::new() }
    }

    /// Looks up the record stored at an address.
    pub fn find_record(&self, address: &Pubkey32) -> (r: Option<usize>)
        ensures
            match r {
                Some(i) => i < self.records@.len() && self.records@[i as int].address@ == address@,
                None => !self.has_record_at(address@),
            },
    {
        let mut i: usize = 0;
        while i < self.records.len()
            invariant
                i <= self.records@.len(),
                forall|k: int| 0 <= k < i ==> self.records@[k].address@ != address@,
            decreases self.records@.len() - i,
        {
            if self.records[i].address.eq_key(address) {
                return Some(i);
            }
            i += 1;
        }
        None
    }
}

/// In a well-formed registry the record at an index is the only one at its
/// address, so `index_at` finds exactly it.
pub proof fn lemma_index_unique(reg: DelegationRegistry, i: int)
    requires
        reg.wf(),
        0 <= i < reg.records@.len(),
    ensures
        reg.has_record_at(reg.records@[i].address@),
        reg.index_at(reg.records@[i].address@) == i,
{
    let addr = reg.records@[i].address@;
    assert(reg.has_record_at(addr)) by {
        assert(0 <= i < reg.records@.len() && reg.records@[i].address@ == addr);
    }
    let j = reg.index_at(addr);
    assert(0 <= j < reg.records@.len() && reg.records@[j].address@ == addr);
    if j < i {
        assert(reg.records@[j].address@ != reg.records@[i].address@);
    }
    if i < j {
        assert(reg.records@[i].address@ != reg.records@[j].address@);
    }
}

/// What a successful creation does to the registry: one record appended, at
/// the canonically derived address, previously unoccupied, holding exactly
/// the given keys, nonce and deposit; everything else untouched.
pub open spec fn create_applied(
    pre: DelegationRegistry,
    post: DelegationRegistry,
    validator: Pubkey32,
    governance_key: Pubkey32,
    deposit: u64,
) -> bool {
    &&& post.program_id == pre.program_id
    &&& post.records@.len() == pre.records@.len() + 1
    &&& post.records@.take(pre.records@.len() as int) == pre.records@
    &&& post.records@.last().record.validator_identity@ == validator@
    &&& post.records@.last().record.governance_key@ == governance_key@
    &&& post.records@.last().deposit == deposit
    &&& canonical_pda(validator@, pre.program_id@)
        == Some((post.records@.last().address@, post.records@.last().record.bump))
    &&& !pre.has_record_at(post.records@.last().address@)
}

/// When a creation fails with a given error: only `AlreadyDelegated`, and
/// only because a record already sits at the address derived for this
/// validator.
pub open spec fn create_failed(
    pre: DelegationRegistry,
    validator: Pubkey32,
    e: DelegationError,
) -> bool {
    &&& e == DelegationError::AlreadyDelegated
    &&& canonical_pda(validator@, pre.program_id@) matches Some(p) && pre.has_record_at(p.0)
}

/// The request context for registering a delegation.
pub struct CreateDelegation {
    /// The validator's identity key: the authenticated signer of the request
    /// and the payer of the record's storage deposit.
    pub validator_identity: Pubkey32,
    /// The storage deposit the host charges for the record's account.
    pub deposit: u64,
}

impl CreateDelegation {
    /// Registers a delegation: derives the record's address from the
    /// namespace tag and the validator identity under the given bump seed,
    /// fails with `AlreadyDelegated` if a record already sits at that
    /// address, and otherwise writes the record and debits the deposit.
    ///
    /// The bump seed must be the canonical one for this validator, as the
    /// host's derivation search returns it; the host aborts the transaction
    /// otherwise, so that case is excluded here.
    pub fn create_delegation_handler(
        &self,
        governance_key: Pubkey32,
        bump: u8,
        registry: &mut DelegationRegistry,
    ) -> (r: Result<(), DelegationError>)
        requires
            old(registry).wf(),
            canonical_pda(self.validator_identity@, old(registry).program_id@) matches Some(p)
                && p.1 == bump,
        ensures
            final(registry).wf(),
            match r {
                Ok(_) => create_applied(
                    *old(registry),
                    *final(registry),
                    self.validator_identity,
                    governance_key,
                    self.deposit,
                ),
                Err(e) => {
                    &&& *final(registry) == *old(registry)
                    &&& create_failed(*old(registry), self.validator_identity, e)
                },
            },
    {
        proof {
            lemma_pda_search_found(
                DELEGATION_TAG@,
                self.validator_identity@,
                registry.program_id@,
                255,
            );
        }
        let addr = match create_pda(&DELEGATION_TAG, &self.validator_identity, bump, &registry.program_id) {
            Some(a) => a,
            None => vstd::pervasive::unreached(),
        };
        match registry.find_record(&addr) {
            Some(_) => Err(DelegationError::AlreadyDelegated),
            None => {
                let ghost pre = *registry;
                let new_record = StoredRecord {
                    address: addr,
                    record: GovernanceDelegate {
                        validator_identity: self.validator_identity,
                        governance_key,
                        bump,
                    },
                    deposit: self.deposit,
                };
                registry.records.push(new_record);
                proof {
                    assert(registry.records@.take(pre.records@.len() as int) =~= pre.records@);
                    assert forall|i: int, j: int|
                        0 <= i < j < registry.records@.len() implies registry.records@[i].address@
                        != registry.records@[j].address@ by {
                        if j < pre.records@.len() {
                            assert(pre.records@[i].address@ != pre.records@[j].address@);
                        } else {
                            assert(registry.records@[j] == new_record);
                            assert(pre.records@[i].address@ != addr@);
                        }
                    }
                }
                Ok(())
            },
        }
    }
}

/// What a successful revocation does to the registry: the record at the
/// given address, owned by the signer, is removed, and its deposit is the
/// refund; everything else untouched.
pub open spec fn revoke_applied(
    pre: DelegationRegistry,
    post: DelegationRegistry,
    ctx: RevokeDelegation,
    refund: u64,
) -> bool {
    &&& pre.has_record_at(ctx.delegation_account@)
    &&& pre.record_at(ctx.delegation_account@).record.validator_identity@ == ctx.validator_identity@
    &&& refund == pre.record_at(ctx.delegation_account@).deposit
    &&& post.program_id == pre.program_id
    &&& post.records@ == pre.records@.remove(pre.index_at(ctx.delegation_account@))
}

/// When a revocation fails with a given error: `RecordNotFound` if and only
/// if nothing is stored at the address, `Unauthorized` if and only if a
/// record is there but the signer is not the stored validator; nothing else
/// ever fails it.
pub open spec fn revoke_failed(
    pre: DelegationRegistry,
    ctx: RevokeDelegation,
    e: DelegationError,
) -> bool {
    match e {
        DelegationError::RecordNotFound => !pre.has_record_at(ctx.delegation_account@),
        DelegationError::Unauthorized => pre.has_record_at(ctx.delegation_account@)
            && pre.record_at(ctx.delegation_account@).record.validator_identity@
            != ctx.validator_identity@,
        _ => false,
    }
}

/// The request context for revoking a delegation.
pub struct RevokeDelegation {
    /// Address of the delegation record to close.
    pub delegation_account: Pubkey32,
    /// The authenticated signer of the revocation request.
    pub validator_identity: Pubkey32,
}

impl RevokeDelegation {
    /// Revokes a delegation: fails with `RecordNotFound` if no record sits
    /// at the given address, with `Unauthorized` if the signer is not the
    /// validator stored in the record, and otherwise erases the record and
    /// returns the stored deposit as the refund owed to the validator.
    pub fn revoke_delegation_handler(&self, registry: &mut DelegationRegistry) -> (r: Result<
        u64,
        DelegationError,
    >)
        requires
            old(registry).wf(),
        ensures
            final(registry).wf(),
            match r {
                Ok(refund) => revoke_applied(*old(registry), *final(registry), *self, refund),
                Err(e) => {
                    &&& *final(registry) == *old(registry)
                    &&& revoke_failed(*old(registry), *self, e)
                },
            },
    {
        let i = match registry.find_record(&self.delegation_account) {
            Some(i) => i,
            None => {
                return Err(DelegationError::RecordNotFound);
            },
        };
        proof {
            lemma_index_unique(*registry, i as int);
        }
        if !registry.records[i].record.validator_identity.eq_key(&self.validator_identity) {
            return Err(DelegationError::Unauthorized);
        }
        let ghost pre = *registry;
        let removed = registry.records.remove(i);
        proof {
            pre.records@.remove_ensures(i as int);
            assert forall|a: int, b: int|
                0 <= a < b < registry.records@.len() implies registry.records@[a].address@
                != registry.records@[b].address@ by {
                let a0: int = if a < i { a } else { a + 1 };
                let b0: int = if b < i { b } else { b + 1 };
                assert(registry.records@[a] == pre.records@[a0]);
                assert(registry.records@[b] == pre.records@[b0]);
                assert(pre.records@[a0].address@ != pre.records@[b0].address@);
            }
        }
        Ok(removed.deposit)
    }
}

} // verus!
