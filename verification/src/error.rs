//! Why a mailbox call failed, and how a caller may react.

use vstd::prelude::*;

verus! {

/// The four families of failure a caller has to tell apart.
#[derive(Clone, Copy, Debug, PartialEq, Eq, Structural)]
pub enum FailureKind {
    /// Something asked for does not exist yet; expected while indexing lags.
    NotFound,
    /// The backend could not be reached; the same call may be tried again.
    ChainCommunication,
    /// The chain refused the request as it stands; the same request will be
    /// refused again.
    Validation,
    /// The transaction could not be paid for; it may be tried again with
    /// other parameters.
    Submission,
}

/// A failed mailbox call.
#[derive(Clone, Copy, Debug, PartialEq, Eq, Structural)]
pub enum ChainCommunicationError {
    /// The backend is unreachable.
    Unreachable,
    /// No checkpoint exists at the point asked for.
    NoCheckpoint,
    /// The message has been delivered before.
    AlreadyDelivered,
    /// The security module rejected the metadata.
    MetadataRejected,
    /// The gas limit does not cover the delivery.
    InsufficientGas,
}

/// What a mailbox call returns.
pub type ChainResult<T> = Result<T, ChainCommunicationError>;

impl ChainCommunicationError {
    /// The family a failure belongs to.
    pub open spec fn spec_kind(self) -> FailureKind {
        match self {
            ChainCommunicationError::Unreachable => FailureKind::ChainCommunication,
            ChainCommunicationError::NoCheckpoint => FailureKind::NotFound,
            ChainCommunicationError::AlreadyDelivered => FailureKind::Validation,
            ChainCommunicationError::MetadataRejected => FailureKind::Validation,
            ChainCommunicationError::InsufficientGas => FailureKind::Submission,
        }
    }

    /// The family a failure belongs to.
    pub fn kind(&self) -> (kind: FailureKind)
        ensures
            kind == self.spec_kind(),
    {
        match self {
            ChainCommunicationError::Unreachable => FailureKind::ChainCommunication,
            ChainCommunicationError::NoCheckpoint => FailureKind::NotFound,
            ChainCommunicationError::AlreadyDelivered => FailureKind::Validation,
            ChainCommunicationError::MetadataRejected => FailureKind::Validation,
            ChainCommunicationError::InsufficientGas => FailureKind::Submission,
        }
    }

    /// Whether repeating the very same call can succeed: true while the
    /// chain is out of reach or has not caught up, false where the request
    /// itself has to change first.
    pub fn retryable_unchanged(&self) -> (retry: bool)
        ensures
            retry == (self.spec_kind() == FailureKind::ChainCommunication || self.spec_kind()
                == FailureKind::NotFound),
    {
        match self {
            ChainCommunicationError::Unreachable => true,
            ChainCommunicationError::NoCheckpoint => true,
            ChainCommunicationError::AlreadyDelivered => false,
            ChainCommunicationError::MetadataRejected => false,
            ChainCommunicationError::InsufficientGas => false,
        }
    }
}

} // verus!
