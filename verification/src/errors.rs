//! The closed set of failure kinds that the store and the passthrough file
//! operations report.

use vstd::prelude::*;

verus! {

/// One failure kind per way an operation can go wrong. Callers branch on the
/// kind; no operation is retried and none is fatal.
#[derive(Clone, Copy, Debug, PartialEq, Eq, Structural)]
pub enum StoreError {
    /// The storage directory could not be created or accessed.
    DirectoryError,
    /// No file exists for the requested key.
    NotFoundError,
    /// A stored payload is not valid base64.
    DecodeError,
    /// A decoded payload is not valid UTF-8.
    EncodingError,
    /// Writing a key's file failed.
    WriteError,
    /// Deleting a key's file failed.
    DeleteError,
    /// A passthrough file operation failed.
    IoError,
}

/// The description that [`StoreError::describe`] returns for each kind.
pub open spec fn describe_spec(e: StoreError) -> Seq<char> {
    match e {
        StoreError::DirectoryError => "failed to access the storage directory"@,
        StoreError::NotFoundError => "key not found"@,
        StoreError::DecodeError => "stored value is not valid base64"@,
        StoreError::EncodingError => "stored value is not valid UTF-8"@,
        StoreError::WriteError => "failed to write the key's file"@,
        StoreError::DeleteError => "failed to delete the key's file"@,
        StoreError::IoError => "file operation failed"@,
    }
}

impl StoreError {
    /// A short description of the failure kind.
    pub fn describe(&self) -> (r: &'static str)
        ensures
            r@ == describe_spec(*self),
    {
        match self {
            StoreError::DirectoryError => "failed to access the storage directory",
            StoreError::NotFoundError => "key not found",
            StoreError::DecodeError => "stored value is not valid base64",
            StoreError::EncodingError => "stored value is not valid UTF-8",
            StoreError::WriteError => "failed to write the key's file",
            StoreError::DeleteError => "failed to delete the key's file",
            StoreError::IoError => "file operation failed",
        }
    }
}

} // verus!
