use validator_governance::errors::DelegationError;
use validator_governance::keys::Pubkey32;
use validator_governance::registry::{CreateDelegation, DelegationRegistry, StoredRecord};
use validator_governance::state::GovernanceDelegate;
use validator_governance::vote::{ExecuteVoteAsDelegate, Vote, VoteChoice};
use validator_governance::vote::surface_vote_result;
use validator_governance::create_delegation;
use validator_governance::execute_vote_as_delegate;

fn key(n: u8) -> Pubkey32 {
    Pubkey32::new([n; 32])
}

fn program_id() -> Pubkey32 {
    key(7)
}

fn registry_with_delegation(validator: Pubkey32, governance_key: Pubkey32) -> DelegationRegistry {
    let mut registry = DelegationRegistry::new(program_id());
    let ctx = CreateDelegation { validator_identity: validator, deposit: 1000 };
    let r = create_delegation(&mut registry, &ctx, governance_key);
    assert_eq!(r, Some(Ok(())));
    registry
}

fn vote_ctx(registry: &DelegationRegistry, validator: Pubkey32, governance_key: Pubkey32) -> ExecuteVoteAsDelegate {
    ExecuteVoteAsDelegate {
        delegation_account: registry.records[0].address,
        validator_identity: validator,
        governance_key,
        realm: key(20),
        governance: key(21),
        proposal: key(22),
        proposal_owner_record: key(23),
        voter_token_owner_record: key(24),
        governing_token_mint: key(25),
        spl_governance_program: key(26),
    }
}

fn to_solana(k: &Pubkey32) -> solana_program::pubkey::Pubkey {
    solana_program::pubkey::Pubkey::new_from_array(k.bytes)
}

fn assert_matches_spl_builder(
    ctx: &ExecuteVoteAsDelegate,
    action: &validator_governance::vote::CastVoteAction,
    spl_vote: spl_governance::state::vote_record::Vote,
) {
    let expected = spl_governance::instruction::cast_vote(
        &to_solana(&ctx.spl_governance_program),
        &to_solana(&ctx.realm),
        &to_solana(&ctx.governance),
        &to_solana(&ctx.proposal),
        &to_solana(&ctx.proposal_owner_record),
        &to_solana(&ctx.voter_token_owner_record),
        &to_solana(&ctx.delegation_account),
        &to_solana(&ctx.governing_token_mint),
        &to_solana(&ctx.governance_key),
        None,
        None,
        spl_vote,
    );
    assert_eq!(action.instruction.program_id.bytes, expected.program_id.to_bytes());
    assert_eq!(action.instruction.data, expected.data);
    assert_eq!(action.instruction.accounts.len(), expected.accounts.len());
    let mut i = 0;
    while i < expected.accounts.len() {
        let got = &action.instruction.accounts[i];
        let want = &expected.accounts[i];
        assert_eq!(got.pubkey.bytes, want.pubkey.to_bytes());
        assert_eq!(got.is_signer, want.is_signer);
        assert_eq!(got.is_writable, want.is_writable);
        i += 1;
    }
}

#[test]
fn delegate_vote_forwards_payload_byte_for_byte() {
    let validator = key(1);
    let governance_key = key(2);
    let registry = registry_with_delegation(validator, governance_key);
    let ctx = vote_ctx(&registry, validator, governance_key);

    let choices = vec![
        VoteChoice { rank: 0, weight_percentage: 100 },
        VoteChoice { rank: 1, weight_percentage: 0 },
    ];
    let action = execute_vote_as_delegate(&registry, &ctx, &Vote::Approve(choices)).unwrap();

    assert_eq!(action.signer_validator.bytes, validator.bytes);
    assert_eq!(action.signer_bump, registry.records[0].record.bump);

    let spl_choices = vec![
        spl_governance::state::vote_record::VoteChoice { rank: 0, weight_percentage: 100 },
        spl_governance::state::vote_record::VoteChoice { rank: 1, weight_percentage: 0 },
    ];
    assert_matches_spl_builder(
        &ctx,
        &action,
        spl_governance::state::vote_record::Vote::Approve(spl_choices),
    );

    // The voting authority presented to the governance service is the
    // derived record address, marked as a signer.
    let authority = &action.instruction.accounts[5];
    assert_eq!(authority.pubkey.bytes, ctx.delegation_account.bytes);
    assert!(authority.is_signer);
    assert!(!authority.is_writable);
    // The delegate pays for the call.
    let payer = &action.instruction.accounts[8];
    assert_eq!(payer.pubkey.bytes, governance_key.bytes);
    assert!(payer.is_signer);
    assert!(payer.is_writable);
}

#[test]
fn deny_vote_matches_builder_output() {
    let validator = key(1);
    let governance_key = key(2);
    let registry = registry_with_delegation(validator, governance_key);
    let ctx = vote_ctx(&registry, validator, governance_key);

    let action = execute_vote_as_delegate(&registry, &ctx, &Vote::Deny).unwrap();
    assert_matches_spl_builder(&ctx, &action, spl_governance::state::vote_record::Vote::Deny);
}

#[test]
fn veto_and_abstain_match_builder_output() {
    let validator = key(1);
    let governance_key = key(2);
    let registry = registry_with_delegation(validator, governance_key);
    let ctx = vote_ctx(&registry, validator, governance_key);

    let veto = execute_vote_as_delegate(&registry, &ctx, &Vote::Veto).unwrap();
    assert_matches_spl_builder(&ctx, &veto, spl_governance::state::vote_record::Vote::Veto);

    let abstain = execute_vote_as_delegate(&registry, &ctx, &Vote::Abstain).unwrap();
    assert_matches_spl_builder(&ctx, &abstain, spl_governance::state::vote_record::Vote::Abstain);
}

#[test]
fn wrong_governance_key_is_key_mismatch() {
    let validator = key(1);
    let registry = registry_with_delegation(validator, key(2));
    let ctx = vote_ctx(&registry, validator, key(9));
    let r = execute_vote_as_delegate(&registry, &ctx, &Vote::Deny);
    assert_eq!(r.err(), Some(DelegationError::KeyMismatch));
}

#[test]
fn wrong_validator_identity_fails_address_check() {
    let validator = key(1);
    let governance_key = key(2);
    let registry = registry_with_delegation(validator, governance_key);
    // The record's address cannot be re-derived from a different identity.
    let ctx = vote_ctx(&registry, key(8), governance_key);
    let r = execute_vote_as_delegate(&registry, &ctx, &Vote::Deny);
    assert_eq!(r.err(), Some(DelegationError::AddressMismatch));
}

#[test]
fn missing_record_is_record_not_found() {
    let registry = DelegationRegistry::new(program_id());
    let mut ctx = vote_ctx_on_empty();
    ctx.delegation_account = key(5);
    let r = execute_vote_as_delegate(&registry, &ctx, &Vote::Abstain);
    assert_eq!(r.err(), Some(DelegationError::RecordNotFound));
}

fn vote_ctx_on_empty() -> ExecuteVoteAsDelegate {
    ExecuteVoteAsDelegate {
        delegation_account: key(5),
        validator_identity: key(1),
        governance_key: key(2),
        realm: key(20),
        governance: key(21),
        proposal: key(22),
        proposal_owner_record: key(23),
        voter_token_owner_record: key(24),
        governing_token_mint: key(25),
        spl_governance_program: key(26),
    }
}

#[test]
fn forged_nonce_is_address_mismatch() {
    let validator = key(1);
    let governance_key = key(2);
    let mut registry = registry_with_delegation(validator, governance_key);
    // Tamper with the stored nonce: the record's address no longer
    // re-derives, so the proxy must refuse it.
    let good_bump = registry.records[0].record.bump;
    registry.records[0] = StoredRecord {
        address: registry.records[0].address,
        record: GovernanceDelegate {
            validator_identity: validator,
            governance_key,
            bump: good_bump.wrapping_sub(1),
        },
        deposit: registry.records[0].deposit,
    };
    let ctx = vote_ctx(&registry, validator, governance_key);
    let r = execute_vote_as_delegate(&registry, &ctx, &Vote::Veto);
    assert_eq!(r.err(), Some(DelegationError::AddressMismatch));
}

#[test]
fn external_success_is_surfaced_unchanged() {
    assert_eq!(surface_vote_result(Ok(())), Ok(()));
}

#[test]
fn external_failure_is_surfaced_unchanged() {
    assert_eq!(
        surface_vote_result(Err(42)),
        Err(DelegationError::ExternalServiceError(42))
    );
}
