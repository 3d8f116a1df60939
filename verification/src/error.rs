//! Why an operation was refused.

use vstd::prelude::*;

verus! {

/// The failures of the operations. Whatever the failure, the ledger is left as
/// it was before the operation began.
#[derive(Clone, Copy, PartialEq, Eq, Structural, Debug)]
pub enum RoastError {
    /// The supply record could not be set up.
    SupplyInitFailed,
    /// The ownership account could not be created.
    OwnershipAccountFailed,
    /// Units could not be minted.
    MintFailed,
    /// The metadata record could not be written.
    MetadataWriteFailed,
    /// The provenance record could not be written.
    ProvenanceWriteFailed,
    /// The mint authority could not be revoked.
    AuthorityRevokeFailed,
    /// The caller is not the mint authority of the supply.
    AuthorityMismatch,
    /// An account is not the one that the operation is entitled to.
    AccountMismatch,
    /// A record that is set up once exists already.
    AlreadyInitialized,
}

/// The three families of failures.
#[derive(Clone, Copy, PartialEq, Eq, Structural, Debug)]
pub enum ErrorKind {
    /// An identity did not match; found before anything was changed.
    PreconditionViolation,
    /// A step of the ledger failed in the middle of the operation.
    PrimitiveFailure,
    /// A one-time initialisation was run again.
    AlreadyInitialized,
}

impl RoastError {
    /// The family of this failure.
    pub open spec fn kind_of(self) -> ErrorKind {
        match self {
            RoastError::AuthorityMismatch | RoastError::AccountMismatch => {
                ErrorKind::PreconditionViolation
            },
            RoastError::AlreadyInitialized => ErrorKind::AlreadyInitialized,
            _ => ErrorKind::PrimitiveFailure,
        }
    }

    /// The family of this failure.
    pub fn kind(&self) -> (kind: ErrorKind)
        ensures
            kind == self.kind_of(),
    {
        match self {
            RoastError::AuthorityMismatch | RoastError::AccountMismatch => {
                ErrorKind::PreconditionViolation
            },
            RoastError::AlreadyInitialized => ErrorKind::AlreadyInitialized,
            RoastError::SupplyInitFailed
            | RoastError::OwnershipAccountFailed
            | RoastError::MintFailed
            | RoastError::MetadataWriteFailed
            | RoastError::ProvenanceWriteFailed
            | RoastError::AuthorityRevokeFailed => ErrorKind::PrimitiveFailure,
        }
    }
}

} // verus!
