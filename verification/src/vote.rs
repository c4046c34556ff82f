use vstd::prelude::*;
use crate::errors::DelegationError;
use crate::keys::Pubkey32;
use crate::pda::{create_pda, pda_of, DELEGATION_TAG};
use crate::registry::{lemma_index_unique, DelegationRegistry};
use solana_program::pubkey::Pubkey;
use spl_governance::instruction::cast_vote;
use spl_governance::state::vote_record::Vote as SplVote;
use spl_governance::state::vote_record::VoteChoice as SplChoice;

verus! {

/// One ranked choice of an approval vote.
#[derive(Clone, Copy, Debug, PartialEq, Eq, Structural)]
pub struct VoteChoice {
    /// The rank the voter gives the choice.
    pub rank: u8,
    /// The share of the voter's weight given to the choice, in percent.
    pub weight_percentage: u8,
}

/// The vote payload, carried through to the governance service unchanged.
#[derive(Clone, Debug)]
pub enum Vote {
    /// Approve, with one weight entry per proposal option.
    Approve(Vec<VoteChoice>),
    /// Reject the proposal.
    Deny,
    /// Declare indifference to the proposal.
    Abstain,
    /// Veto the proposal.
    Veto,
}

/// The mathematical value of a vote payload.
pub enum VoteSpec {
    Approve(Seq<VoteChoice>),
    Deny,
    Abstain,
    Veto,
}

impl View for Vote {
    type V = VoteSpec;

    open spec fn view(&self) -> VoteSpec {
        match self {
            Vote::Approve(choices) => VoteSpec::Approve(choices@),
            Vote::Deny => VoteSpec::Deny,
            Vote::Abstain => VoteSpec::Abstain,
            Vote::Veto => VoteSpec::Veto,
        }
    }
}

/// One account reference of a built instruction: the key it names and the
/// permissions the call demands of it.
#[derive(Clone, Copy, Debug)]
pub struct AccountMetaInfo {
    pub pubkey: Pubkey32,
    pub is_signer: bool,
    pub is_writable: bool,
}

/// An account reference names a key and carries exactly these permissions.
pub open spec fn meta_is(m: AccountMetaInfo, key: Seq<u8>, signer: bool, writable: bool) -> bool {
    &&& m.pubkey@ == key
    &&& m.is_signer == signer
    &&& m.is_writable == writable
}

/// A call into the external governance service, ready to hand to the host:
/// the program to invoke, the accounts it reads and writes, and the raw
/// request bytes.
#[derive(Clone, Debug)]
pub struct InstructionData {
    pub program_id: Pubkey32,
    pub accounts: Vec<AccountMetaInfo>,
    pub data: Vec<u8>,
}

/// The outcome of a successful vote-proxy run: the governance call to make,
/// plus the derivation proof (namespace tag, validator identity, nonce) the
/// host presents so the derived address counts as a signer of that call.
#[derive(Clone, Debug)]
pub struct CastVoteAction {
    pub instruction: InstructionData,
    /// The validator identity whose derived address signs the call.
    pub signer_validator: Pubkey32,
    /// The derivation nonce completing the proof.
    pub signer_bump: u8,
}

/// The serialized cast-vote request the governance service's instruction
/// builder writes; a function of the vote payload alone, and carrying the
/// payload byte for byte as its serialization.
pub uninterp spec fn cast_vote_data_of(vote: VoteSpec) -> Seq<u8>;

/// The governance service's own vote payload type, opaque here; it is only
/// built from this library's payload and handed straight to the service's
/// instruction builder.
#[verifier::external_type_specification]
#[verifier::external_body]
pub struct ExSplVote(SplVote);

/// Relies on spl_governance::state::vote_record::Vote: rebuilds the same
/// payload in the service's own type, variant for variant and field for
/// field.
#[verifier::external_body]
fn to_spl_vote(vote: &Vote) -> (r: SplVote) {
    match vote {
        Vote::Approve(cs) => SplVote::Approve(cs.iter().map(|c| SplChoice { rank: c.rank, weight_percentage: c.weight_percentage }).collect()),
        Vote::Deny => SplVote::Deny,
        Vote::Abstain => SplVote::Abstain,
        Vote::Veto => SplVote::Veto,
    }
}

/// Relies on spl_governance::instruction::cast_vote: the built instruction
/// targets the given program id; its account list is written in that
/// builder's fixed order — realm, governance, proposal, proposal owner
/// record, voter token-owner record, voting authority, the vote record it
/// derives itself, governing token mint, payer, the system program (the
/// all-zero key), and the realm config it derives itself; no voter-weight
/// add-in records are supplied. Its data is the serialized cast-vote
/// request, a function of the vote payload alone.
#[verifier::external_body]
fn build_cast_vote_instruction(
    program_id: &Pubkey32,
    realm: &Pubkey32,
    governance: &Pubkey32,
    proposal: &Pubkey32,
    proposal_owner_record: &Pubkey32,
    voter_token_owner_record: &Pubkey32,
    governance_authority: &Pubkey32,
    governing_token_mint: &Pubkey32,
    payer: &Pubkey32,
    vote: &Vote,
) -> (r: InstructionData)
    ensures
        r.program_id@ == program_id@,
        r.data@ == cast_vote_data_of(vote@),
        r.accounts@.len() == 11,
        meta_is(r.accounts@[0], realm@, false, false),
        meta_is(r.accounts@[1], governance@, false, true),
        meta_is(r.accounts@[2], proposal@, false, true),
        meta_is(r.accounts@[3], proposal_owner_record@, false, true),
        meta_is(r.accounts@[4], voter_token_owner_record@, false, true),
        meta_is(r.accounts@[5], governance_authority@, true, false),
        !r.accounts@[6].is_signer && r.accounts@[6].is_writable,
        meta_is(r.accounts@[7], governing_token_mint@, false, false),
        meta_is(r.accounts@[8], payer@, true, true),
        !r.accounts@[9].is_signer && !r.accounts@[9].is_writable,
        forall|k: int| 0 <= k < 32 ==> r.accounts@[9].pubkey@[k] == 0,
        !r.accounts@[10].is_signer && !r.accounts@[10].is_writable,
{
    let pk = |k: &Pubkey32| Pubkey::new_from_array(k.bytes);
    let v = to_spl_vote(vote);
    let ix = cast_vote(&pk(program_id), &pk(realm), &pk(governance), &pk(proposal), &pk(proposal_owner_record), &pk(voter_token_owner_record), &pk(governance_authority), &pk(governing_token_mint), &pk(payer), None, None, v);
    let accounts = ix.accounts.iter().map(|m| AccountMetaInfo { pubkey: Pubkey32 { bytes: m.pubkey.to_bytes() }, is_signer: m.is_signer, is_writable: m.is_writable }).collect();
    InstructionData { program_id: Pubkey32 { bytes: ix.program_id.to_bytes() }, accounts, data: ix.data }
}

/// The request context for voting through a delegation.
///
/// Beyond the three keys the proxy itself checks, the context carries the
/// governance service's own accounts as opaque references: their content is
/// validated by that service, not here — a documented trust boundary.
pub struct ExecuteVoteAsDelegate {
    /// Address of the delegation record being exercised.
    pub delegation_account: Pubkey32,
    /// The validator on whose behalf the vote is cast; not a signer here.
    pub validator_identity: Pubkey32,
    /// The delegate key: the authenticated signer of this request, and the
    /// payer of the governance call.
    pub governance_key: Pubkey32,
    /// Opaque: the realm the proposal belongs to.
    pub realm: Pubkey32,
    /// Opaque: the governance object owning the proposal.
    pub governance: Pubkey32,
    /// Opaque: the proposal voted on.
    pub proposal: Pubkey32,
    /// Opaque: the proposal owner's token-owner record.
    pub proposal_owner_record: Pubkey32,
    /// Opaque: the voter's token-owner record.
    pub voter_token_owner_record: Pubkey32,
    /// Opaque: the governing token mint the vote is cast with.
    pub governing_token_mint: Pubkey32,
    /// The governance service's program id.
    pub spl_governance_program: Pubkey32,
}

/// All preconditions of the vote proxy, against the stored record: the
/// record exists, its address re-derives from the supplied validator
/// identity under the stored nonce, and both supplied keys match the stored
/// binding exactly.
pub open spec fn vote_checks_pass(reg: DelegationRegistry, ctx: ExecuteVoteAsDelegate) -> bool {
    &&& reg.has_record_at(ctx.delegation_account@)
    &&& pda_of(
        DELEGATION_TAG@,
        ctx.validator_identity@,
        reg.record_at(ctx.delegation_account@).record.bump,
        reg.program_id@,
    ) == Some(ctx.delegation_account@)
    &&& reg.record_at(ctx.delegation_account@).record.governance_key@ == ctx.governance_key@
    &&& reg.record_at(ctx.delegation_account@).record.validator_identity@
        == ctx.validator_identity@
}

/// When the vote proxy fails with a given error, checked in this order:
/// `RecordNotFound` if and only if nothing is stored at the given address;
/// `AddressMismatch` if and only if the record is there but its address does
/// not re-derive from the supplied validator identity under the stored
/// nonce; `KeyMismatch` if and only if the derivation holds but a supplied
/// key differs from the stored one. Nothing else ever fails it.
pub open spec fn vote_failed(
    reg: DelegationRegistry,
    ctx: ExecuteVoteAsDelegate,
    e: DelegationError,
) -> bool {
    match e {
        DelegationError::RecordNotFound => !reg.has_record_at(ctx.delegation_account@),
        DelegationError::AddressMismatch => reg.has_record_at(ctx.delegation_account@) && pda_of(
            DELEGATION_TAG@,
            ctx.validator_identity@,
            reg.record_at(ctx.delegation_account@).record.bump,
            reg.program_id@,
        ) != Some(ctx.delegation_account@),
        DelegationError::KeyMismatch => {
            &&& reg.has_record_at(ctx.delegation_account@)
            &&& pda_of(
                DELEGATION_TAG@,
                ctx.validator_identity@,
                reg.record_at(ctx.delegation_account@).record.bump,
                reg.program_id@,
            ) == Some(ctx.delegation_account@)
            &&& (reg.record_at(ctx.delegation_account@).record.governance_key@
                != ctx.governance_key@ || reg.record_at(
                ctx.delegation_account@,
            ).record.validator_identity@ != ctx.validator_identity@)
        },
        _ => false,
    }
}

/// What a successful vote-proxy run hands back: every precondition held, and
/// the action carries the governance call with the caller's accounts in the
/// builder's order, the derived address as the signing voting authority, the
/// delegate as payer, the vote payload serialized byte for byte, and the
/// derivation proof for the host.
pub open spec fn vote_forwarded(
    reg: DelegationRegistry,
    ctx: ExecuteVoteAsDelegate,
    vote: VoteSpec,
    action: CastVoteAction,
) -> bool {
    &&& vote_checks_pass(reg, ctx)
    &&& action.signer_validator@ == ctx.validator_identity@
    &&& action.signer_bump == reg.record_at(ctx.delegation_account@).record.bump
    &&& action.instruction.program_id@ == ctx.spl_governance_program@
    &&& action.instruction.data@ == cast_vote_data_of(vote)
    &&& action.instruction.accounts@.len() == 11
    &&& meta_is(action.instruction.accounts@[0], ctx.realm@, false, false)
    &&& meta_is(action.instruction.accounts@[1], ctx.governance@, false, true)
    &&& meta_is(action.instruction.accounts@[2], ctx.proposal@, false, true)
    &&& meta_is(action.instruction.accounts@[3], ctx.proposal_owner_record@, false, true)
    &&& meta_is(action.instruction.accounts@[4], ctx.voter_token_owner_record@, false, true)
    &&& meta_is(action.instruction.accounts@[5], ctx.delegation_account@, true, false)
    &&& meta_is(action.instruction.accounts@[7], ctx.governing_token_mint@, false, false)
    &&& meta_is(action.instruction.accounts@[8], ctx.governance_key@, true, true)
}

impl ExecuteVoteAsDelegate {
    /// Authenticates the delegate against the stored record and, if every
    /// check passes, builds the governance call that casts the vote as the
    /// validator: the record's derived address stands in for the
    /// validator's signature, completed by the returned derivation proof.
    /// No check failure builds any call, and the registry is never written.
    pub fn execute_vote_as_delegate_handler(
        &self,
        registry: &DelegationRegistry,
        vote: &Vote,
    ) -> (r: Result<CastVoteAction, DelegationError>)
        requires
            registry.wf(),
        ensures
            match r {
                Ok(action) => vote_forwarded(*registry, *self, vote@, action),
                Err(e) => vote_failed(*registry, *self, e),
            },
    {
        let i = match registry.find_record(&self.delegation_account) {
            Some(i) => i,
            None => {
                return Err(DelegationError::RecordNotFound);
            },
        };
        proof {
            lemma_index_unique(*registry, i as int);
        }
        let record = registry.records[i].record;
        let addr_ok = match create_pda(
            &DELEGATION_TAG,
            &self.validator_identity,
            record.bump,
            &registry.program_id,
        ) {
            Some(derived) => derived.eq_key(&self.delegation_account),
            None => false,
        };
        if !addr_ok {
            return Err(DelegationError::AddressMismatch);
        }
        if !record.governance_key.eq_key(&self.governance_key) {
            return Err(DelegationError::KeyMismatch);
        }
        if !record.validator_identity.eq_key(&self.validator_identity) {
            return Err(DelegationError::KeyMismatch);
        }
        let instruction = build_cast_vote_instruction(
            &self.spl_governance_program,
            &self.realm,
            &self.governance,
            &self.proposal,
            &self.proposal_owner_record,
            &self.voter_token_owner_record,
            &self.delegation_account,
            &self.governing_token_mint,
            &self.governance_key,
            vote,
        );
        Ok(CastVoteAction {
            instruction,
            signer_validator: self.validator_identity,
            signer_bump: record.bump,
        })
    }
}

/// Surfaces the external governance service's verdict unchanged: success
/// stays success, and a failure code comes back as `ExternalServiceError`
/// carrying exactly that code.
pub fn surface_vote_result(result: Result<(), u64>) -> (r: Result<(), DelegationError>)
    ensures
        result matches Ok(_) ==> r == Result::<(), DelegationError>::Ok(()),
        result matches Err(code) ==> r == Result::<(), DelegationError>::Err(
            DelegationError::ExternalServiceError(code),
        ),
{
    match result {
        Ok(_) => Ok(()),
        Err(code) => Err(DelegationError::ExternalServiceError(code)),
    }
}

} // verus!
