use validator_governance::errors::DelegationError;
use validator_governance::keys::Pubkey32;
use validator_governance::registry::{CreateDelegation, DelegationRegistry, RevokeDelegation};
use validator_governance::create_delegation;
use validator_governance::revoke_delegation;

fn key(n: u8) -> Pubkey32 {
    Pubkey32::new([n; 32])
}

fn program_id() -> Pubkey32 {
    key(7)
}

fn create_ok(registry: &mut DelegationRegistry, validator: Pubkey32, governance_key: Pubkey32, deposit: u64) {
    let ctx = CreateDelegation { validator_identity: validator, deposit };
    let r = create_delegation(registry, &ctx, governance_key);
    assert_eq!(r, Some(Ok(())));
}

#[test]
fn create_stores_record_at_host_derived_address() {
    let mut registry = DelegationRegistry::new(program_id());
    let validator = key(1);
    let governance = key(2);
    create_ok(&mut registry, validator, governance, 1000);

    assert_eq!(registry.records.len(), 1);
    let stored = &registry.records[0];
    assert_eq!(stored.record.validator_identity.bytes, validator.bytes);
    assert_eq!(stored.record.governance_key.bytes, governance.bytes);
    assert_eq!(stored.deposit, 1000);

    // The stored address and nonce must be exactly what the host's own
    // derivation search returns.
    let pid = solana_program::pubkey::Pubkey::new_from_array(program_id().bytes);
    let (expected, bump) = solana_program::pubkey::Pubkey::find_program_address(
        &[b"delegation", &validator.bytes],
        &pid,
    );
    assert_eq!(stored.address.bytes, expected.to_bytes());
    assert_eq!(stored.record.bump, bump);
}

#[test]
fn create_then_revoke_refunds_and_erases() {
    let mut registry = DelegationRegistry::new(program_id());
    let validator = key(1);
    create_ok(&mut registry, validator, key(2), 5000);
    let address = registry.records[0].address;

    let ctx = RevokeDelegation { delegation_account: address, validator_identity: validator };
    let r = revoke_delegation(&mut registry, &ctx);
    assert_eq!(r, Ok(5000));
    assert_eq!(registry.records.len(), 0);
    assert!(registry.find_record(&address).is_none());
}

#[test]
fn second_create_fails_and_keeps_first_delegate() {
    let mut registry = DelegationRegistry::new(program_id());
    let validator = key(1);
    let first_delegate = key(2);
    create_ok(&mut registry, validator, first_delegate, 1000);

    let ctx = CreateDelegation { validator_identity: validator, deposit: 1000 };
    let r = create_delegation(&mut registry, &ctx, key(3));
    assert_eq!(r, Some(Err(DelegationError::AlreadyDelegated)));
    assert_eq!(registry.records.len(), 1);
    assert_eq!(registry.records[0].record.governance_key.bytes, first_delegate.bytes);
}

#[test]
fn revoke_by_other_signer_fails_and_keeps_record() {
    let mut registry = DelegationRegistry::new(program_id());
    let validator = key(1);
    create_ok(&mut registry, validator, key(2), 1000);
    let address = registry.records[0].address;

    let intruder = key(9);
    let ctx = RevokeDelegation { delegation_account: address, validator_identity: intruder };
    let r = revoke_delegation(&mut registry, &ctx);
    assert_eq!(r, Err(DelegationError::Unauthorized));
    assert_eq!(registry.records.len(), 1);
    assert_eq!(registry.records[0].record.validator_identity.bytes, validator.bytes);
}

#[test]
fn second_revoke_reports_record_not_found() {
    let mut registry = DelegationRegistry::new(program_id());
    let validator = key(1);
    create_ok(&mut registry, validator, key(2), 1000);
    let address = registry.records[0].address;

    let ctx = RevokeDelegation { delegation_account: address, validator_identity: validator };
    assert!(revoke_delegation(&mut registry, &ctx).is_ok());
    let again = revoke_delegation(&mut registry, &ctx);
    assert_eq!(again, Err(DelegationError::RecordNotFound));
}

#[test]
fn revoke_on_empty_registry_reports_record_not_found() {
    let mut registry = DelegationRegistry::new(program_id());
    let ctx = RevokeDelegation { delegation_account: key(5), validator_identity: key(1) };
    assert_eq!(revoke_delegation(&mut registry, &ctx), Err(DelegationError::RecordNotFound));
}

#[test]
fn each_validator_gets_its_own_record() {
    let mut registry = DelegationRegistry::new(program_id());
    let v1 = key(1);
    let v2 = key(2);
    create_ok(&mut registry, v1, key(11), 100);
    create_ok(&mut registry, v2, key(12), 200);

    assert_eq!(registry.records.len(), 2);
    assert_ne!(registry.records[0].address.bytes, registry.records[1].address.bytes);

    // Revoking one leaves the other intact.
    let ctx = RevokeDelegation {
        delegation_account: registry.records[0].address,
        validator_identity: v1,
    };
    assert_eq!(revoke_delegation(&mut registry, &ctx), Ok(100));
    assert_eq!(registry.records.len(), 1);
    assert_eq!(registry.records[0].record.validator_identity.bytes, v2.bytes);
}
