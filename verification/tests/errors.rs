use yap::error::{Error, ErrorClass, RemoteOperation};

fn text(s: &str) -> String {
    s.to_string()
}

#[test]
fn every_failure_has_its_family() {
    assert_eq!(Error::UnsupportedContextCombination.class(), ErrorClass::Configuration);
    assert_eq!(Error::MissingComparisonScript.class(), ErrorClass::Configuration);
    assert_eq!(Error::MissingUsername.class(), ErrorClass::Configuration);
    assert_eq!(Error::DirectoryUnreadable { path: text("d") }.class(), ErrorClass::Io);
    assert_eq!(Error::SnapshotUnreadable { path: text("d") }.class(), ErrorClass::Io);
    assert_eq!(Error::SnapshotNotWritten { path: text("d") }.class(), ErrorClass::Io);
    assert_eq!(Error::MalformedSnapshotName { name: text("d") }.class(), ErrorClass::Io);
    assert_eq!(Error::FileLogbookRejected.class(), ErrorClass::Persistence);
    assert_eq!(Error::MasterLogbookRejected.class(), ErrorClass::Persistence);
    assert_eq!(
        Error::RemoteTransferFailed { operation: RemoteOperation::Read, key: text("k") }.class(),
        ErrorClass::RemoteTransfer
    );
    assert_eq!(Error::NoBaselineSnapshot.class(), ErrorClass::Comparison);
    assert_eq!(Error::EpochNotLater.class(), ErrorClass::Comparison);
    assert_eq!(
        Error::ComparisonScriptFailed { status: Some(1) }.class(),
        ErrorClass::Comparison
    );
}

#[test]
fn only_some_failures_end_the_batch() {
    assert!(Error::UnsupportedContextCombination.aborts_batch());
    assert!(Error::MissingComparisonScript.aborts_batch());
    assert!(Error::MissingUsername.aborts_batch());
    assert!(Error::MasterLogbookRejected.aborts_batch());
    assert!(Error::DirectoryUnreadable { path: text("d") }.aborts_batch());
    assert!(!Error::FileLogbookRejected.aborts_batch());
    assert!(!Error::SnapshotUnreadable { path: text("d") }.aborts_batch());
    assert!(!Error::SnapshotNotWritten { path: text("d") }.aborts_batch());
    assert!(!Error::MalformedSnapshotName { name: text("d") }.aborts_batch());
    assert!(!Error::NoBaselineSnapshot.aborts_batch());
    assert!(!Error::EpochNotLater.aborts_batch());
    assert!(!Error::ComparisonScriptFailed { status: None }.aborts_batch());
    assert!(
        !Error::RemoteTransferFailed { operation: RemoteOperation::Write, key: text("k") }
            .aborts_batch()
    );
}
