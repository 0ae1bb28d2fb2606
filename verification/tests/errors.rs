use hyperlane_test::error::{ChainCommunicationError, FailureKind};

#[test]
fn every_failure_has_its_family() {
    assert_eq!(ChainCommunicationError::Unreachable.kind(), FailureKind::ChainCommunication);
    assert_eq!(ChainCommunicationError::NoCheckpoint.kind(), FailureKind::NotFound);
    assert_eq!(ChainCommunicationError::AlreadyDelivered.kind(), FailureKind::Validation);
    assert_eq!(ChainCommunicationError::MetadataRejected.kind(), FailureKind::Validation);
    assert_eq!(ChainCommunicationError::InsufficientGas.kind(), FailureKind::Submission);
}

#[test]
fn only_transient_failures_are_retried_unchanged() {
    assert!(ChainCommunicationError::Unreachable.retryable_unchanged());
    assert!(ChainCommunicationError::NoCheckpoint.retryable_unchanged());
    assert!(!ChainCommunicationError::AlreadyDelivered.retryable_unchanged());
    assert!(!ChainCommunicationError::MetadataRejected.retryable_unchanged());
    assert!(!ChainCommunicationError::InsufficientGas.retryable_unchanged());
}

#[test]
fn families_are_told_apart() {
    let kinds = [
        FailureKind::NotFound,
        FailureKind::ChainCommunication,
        FailureKind::Validation,
        FailureKind::Submission,
    ];
    for (i, a) in kinds.iter().enumerate() {
        for (j, b) in kinds.iter().enumerate() {
            assert_eq!(a == b, i == j);
        }
    }
}
