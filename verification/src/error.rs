//! What can go wrong between an operation and the store behind it.

use vstd::prelude::*;

verus! {

/// The failure of a store operation.
///
/// Callers are handed one value with a description; the two variants tell the
/// missing store from the failed statement.
#[derive(Debug, PartialEq, Eq)]
pub enum StorageError {
    /// The store is missing from the context, or cannot be reached.
    StorageUnavailable,
    /// The store was reached and the statement failed; the text says how.
    StorageOperationFailed(String),
}

impl StorageError {
    /// The text that describes the error to the caller.
    pub open spec fn description_text(&self) -> Seq<char> {
        match self {
            StorageError::StorageUnavailable => "Pool Missing"@,
            StorageError::StorageOperationFailed(text) => text@,
        }
    }

    /// The description string that the error carries.
    pub fn description(&self) -> (text: String)
        ensures
            text@ == self.description_text(),
    {
        match self {
            StorageError::StorageUnavailable => "Pool Missing".to_owned(),
            StorageError::StorageOperationFailed(text) => text.clone(),
        }
    }
}

impl Clone for StorageError {
    /// A copy of the same variant with the same text.
    fn clone(&self) -> (copy: Self)
        ensures
            copy == *self,
    {
        match self {
            StorageError::StorageUnavailable => StorageError::StorageUnavailable,
            StorageError::StorageOperationFailed(text) => StorageError::StorageOperationFailed(
                text.clone(),
            ),
        }
    }
}

} // verus!
