//! The failures that the storage engine reports.

use vstd::prelude::*;

verus! {

/// An operation of the object store.
#[derive(Clone, Copy, Debug, PartialEq, Eq, Structural)]
pub enum StoreOperation {
    CreateBucket,
    DeleteBucket,
    GetObject,
    HeadObject,
    PutObject,
    DeleteObject,
    ListObjects,
}

/// Why an operation of the engine failed.
#[derive(Debug, PartialEq, Eq)]
pub enum StorageError {
    /// A property of the configuration is missing or has the wrong shape.
    ConfigurationError { property: String },
    /// A key could not be translated.
    InvalidKey { key: String },
    /// A write or a delete reached a storage that only allows reading.
    ReadOnlyViolation,
    /// The object store failed to carry out `operation` on the object under
    /// `key`, or on the bucket named `key`.
    StoreFailure { operation: StoreOperation, key: String, cause: String },
    /// The scheduler that was to run the operation did not run it.
    DispatchFailure { cause: String },
    /// The object under `key` exists but carries no timestamp.
    MetadataMissing { key: String },
    /// The bucket exists already and may not be reused.
    BucketConflict,
}

/// Mathematical form of a [`StorageError`].
pub enum StorageErrorView {
    ConfigurationError { property: Seq<char> },
    InvalidKey { key: Seq<char> },
    ReadOnlyViolation,
    StoreFailure { operation: StoreOperation, key: Seq<char>, cause: Seq<char> },
    DispatchFailure { cause: Seq<char> },
    MetadataMissing { key: Seq<char> },
    BucketConflict,
}

impl View for StorageError {
    type V = StorageErrorView;

    open spec fn view(&self) -> StorageErrorView {
        match self {
            StorageError::ConfigurationError { property } => StorageErrorView::ConfigurationError {
                property: property@,
            },
            StorageError::InvalidKey { key } => StorageErrorView::InvalidKey { key: key@ },
            StorageError::ReadOnlyViolation => StorageErrorView::ReadOnlyViolation,
            StorageError::StoreFailure { operation, key, cause } => StorageErrorView::StoreFailure {
                operation: *operation,
                key: key@,
                cause: cause@,
            },
            StorageError::DispatchFailure { cause } => StorageErrorView::DispatchFailure {
                cause: cause@,
            },
            StorageError::MetadataMissing { key } => StorageErrorView::MetadataMissing { key: key@ },
            StorageError::BucketConflict => StorageErrorView::BucketConflict,
        }
    }
}

/// Mathematical form of what an operation hands back.
pub open spec fn outcome_view<T: View>(outcome: Result<T, StorageError>) -> Result<
    T::V,
    StorageErrorView,
> {
    match outcome {
        Ok(value) => Ok(value@),
        Err(e) => Err(e@),
    }
}

} // verus!
