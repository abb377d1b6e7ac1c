//! The ways an operation on a tracked file can fail.

use vstd::prelude::*;

verus! {

/// The three calls a remote backend answers.
#[derive(Clone, Copy, Debug, PartialEq, Eq, Structural)]
pub enum RemoteOperation {
    Read,
    Write,
    Delete,
}

/// The families of failure, which decide how far a failure spreads.
#[derive(Clone, Copy, Debug, PartialEq, Eq, Structural)]
pub enum ErrorClass {
    /// A bad combination of settings, found before any work is done.
    Configuration,
    /// A local read, write or copy failed.
    Io,
    /// A logbook refused a write.
    Persistence,
    /// A remote backend refused a transfer.
    RemoteTransfer,
    /// Two snapshots could not be compared.
    Comparison,
}

/// A failure of one operation on one file.
#[derive(Debug, PartialEq, Eq)]
pub enum Error {
    /// A context carries both a comparison and remote settings, or lacks the
    /// one that the operation asked of it needs.
    UnsupportedContextCombination,
    /// The custom technique was chosen without a script.
    MissingComparisonScript,
    /// The chosen storage provider needs a user name and none is configured.
    MissingUsername,
    /// A directory named among the inputs could not be listed.
    DirectoryUnreadable { path: String },
    /// The bytes of a snapshot could not be read.
    SnapshotUnreadable { path: String },
    /// A snapshot could not be written to the history.
    SnapshotNotWritten { path: String },
    /// A history directory holds an entry whose name is no epoch.
    MalformedSnapshotName { name: String },
    /// A write to the logbook of one file failed.
    FileLogbookRejected,
    /// A write to the master logbook failed.
    MasterLogbookRejected,
    /// A transfer to or from the remote backend failed.
    RemoteTransferFailed { operation: RemoteOperation, key: String },
    /// A commit found no earlier snapshot to compare with.
    NoBaselineSnapshot,
    /// A commit found a snapshot recorded at its own epoch or a later one.
    EpochNotLater,
    /// The comparison script did not end in success; `status` is its exit
    /// status, where it left one.
    ComparisonScriptFailed { status: Option<i32> },
}

/// An [`Error`] as plain values.
pub enum ErrorView {
    UnsupportedContextCombination,
    MissingComparisonScript,
    MissingUsername,
    DirectoryUnreadable { path: Seq<char> },
    SnapshotUnreadable { path: Seq<char> },
    SnapshotNotWritten { path: Seq<char> },
    MalformedSnapshotName { name: Seq<char> },
    FileLogbookRejected,
    MasterLogbookRejected,
    RemoteTransferFailed { operation: RemoteOperation, key: Seq<char> },
    NoBaselineSnapshot,
    EpochNotLater,
    ComparisonScriptFailed { status: Option<i32> },
}

impl View for Error {
    type V = ErrorView;

    open spec fn view(&self) -> ErrorView {
        match self {
            Error::UnsupportedContextCombination => ErrorView::UnsupportedContextCombination,
            Error::MissingComparisonScript => ErrorView::MissingComparisonScript,
            Error::MissingUsername => ErrorView::MissingUsername,
            Error::DirectoryUnreadable { path } => ErrorView::DirectoryUnreadable { path: path@ },
            Error::SnapshotUnreadable { path } => ErrorView::SnapshotUnreadable { path: path@ },
            Error::SnapshotNotWritten { path } => ErrorView::SnapshotNotWritten { path: path@ },
            Error::MalformedSnapshotName { name } => ErrorView::MalformedSnapshotName {
                name: name@,
            },
            Error::FileLogbookRejected => ErrorView::FileLogbookRejected,
            Error::MasterLogbookRejected => ErrorView::MasterLogbookRejected,
            Error::RemoteTransferFailed { operation, key } => ErrorView::RemoteTransferFailed {
                operation: *operation,
                key: key@,
            },
            Error::NoBaselineSnapshot => ErrorView::NoBaselineSnapshot,
            Error::EpochNotLater => ErrorView::EpochNotLater,
            Error::ComparisonScriptFailed { status } => ErrorView::ComparisonScriptFailed {
                status: *status,
            },
        }
    }
}

impl Error {
    /// The family each failure belongs to.
    pub open spec fn spec_class(&self) -> ErrorClass {
        match self {
            Error::UnsupportedContextCombination => ErrorClass::Configuration,
            Error::MissingComparisonScript => ErrorClass::Configuration,
            Error::MissingUsername => ErrorClass::Configuration,
            Error::DirectoryUnreadable { .. } => ErrorClass::Io,
            Error::SnapshotUnreadable { .. } => ErrorClass::Io,
            Error::SnapshotNotWritten { .. } => ErrorClass::Io,
            Error::MalformedSnapshotName { .. } => ErrorClass::Io,
            Error::FileLogbookRejected => ErrorClass::Persistence,
            Error::MasterLogbookRejected => ErrorClass::Persistence,
            Error::RemoteTransferFailed { .. } => ErrorClass::RemoteTransfer,
            Error::NoBaselineSnapshot => ErrorClass::Comparison,
            Error::EpochNotLater => ErrorClass::Comparison,
            Error::ComparisonScriptFailed { .. } => ErrorClass::Comparison,
        }
    }

    /// Whether the failure ends the whole batch: configuration errors do, a
    /// directory that cannot be listed does, and so does a master logbook that
    /// refuses a write. Every other failure stays with its file.
    pub open spec fn spec_aborts_batch(&self) -> bool {
        self.spec_class() == ErrorClass::Configuration || self is MasterLogbookRejected
            || self is DirectoryUnreadable
    }

    /// The family of this failure.
    pub fn class(&self) -> (c: ErrorClass)
        ensures
            c == self.spec_class(),
    {
        match self {
            Error::UnsupportedContextCombination => ErrorClass::Configuration,
            Error::MissingComparisonScript => ErrorClass::Configuration,
            Error::MissingUsername => ErrorClass::Configuration,
            Error::DirectoryUnreadable { .. } => ErrorClass::Io,
            Error::SnapshotUnreadable { .. } => ErrorClass::Io,
            Error::SnapshotNotWritten { .. } => ErrorClass::Io,
            Error::MalformedSnapshotName { .. } => ErrorClass::Io,
            Error::FileLogbookRejected => ErrorClass::Persistence,
            Error::MasterLogbookRejected => ErrorClass::Persistence,
            Error::RemoteTransferFailed { .. } => ErrorClass::RemoteTransfer,
            Error::NoBaselineSnapshot => ErrorClass::Comparison,
            Error::EpochNotLater => ErrorClass::Comparison,
            Error::ComparisonScriptFailed { .. } => ErrorClass::Comparison,
        }
    }

    /// Whether this failure ends the whole batch.
    pub fn aborts_batch(&self) -> (b: bool)
        ensures
            b == self.spec_aborts_batch(),
    {
        match self {
            Error::UnsupportedContextCombination => true,
            Error::MissingComparisonScript => true,
            Error::MissingUsername => true,
            Error::MasterLogbookRejected => true,
            Error::DirectoryUnreadable { .. } => true,
            _ => false,
        }
    }
}

} // verus!
