use vstd::prelude::*;

verus! {

/// Every way an operation of this program can fail.
///
/// Each failure aborts the enclosing host transaction, so no operation ever
/// leaves a partial state change behind.
#[derive(Clone, Copy, Debug, PartialEq, Eq, Structural)]
pub enum DelegationError {
    /// A delegation record already exists at the address derived for the
    /// validator, so a second one cannot be created.
    AlreadyDelegated,
    /// No delegation record exists at the given address.
    RecordNotFound,
    /// The signer of a revocation is not the validator stored in the record.
    Unauthorized,
    /// The record's address does not match the derivation from the namespace
    /// tag, the supplied validator identity and the record's stored nonce.
    AddressMismatch,
    /// A supplied key does not match the one stored in the record.
    KeyMismatch,
    /// The external governance service failed; its error code is carried
    /// through unchanged.
    ExternalServiceError(u64),
}

} // verus!
