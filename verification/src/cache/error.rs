//! The ways in which a cache operation fails.
use vstd::prelude::*;

verus! {

/// Why a cache operation did not deliver.
#[derive(Debug, Clone)]
pub enum CacheError {
    /// Creating a directory, writing a file or reading one failed.
    Io { path: String, cause: String },
    /// A key could not be put into, or read back from, its canonical text.
    Serialization,
    /// The index entry that was found names no content.
    MissingPointer,
    /// No index entry is stored at the path computed for the key.
    NotFound { path: String },
    /// An integrity string has no hyphen, or fewer than four characters after it.
    MalformedIntegrity,
}

/// A `CacheError` with its texts as character sequences.
pub enum Failure {
    Io { path: Seq<char>, cause: Seq<char> },
    Serialization,
    MissingPointer,
    NotFound { path: Seq<char> },
    MalformedIntegrity,
}

impl View for CacheError {
    type V = Failure;

    open spec fn view(&self) -> Failure {
        match self {
            CacheError::Io { path, cause } => Failure::Io { path: path@, cause: cause@ },
            CacheError::Serialization => Failure::Serialization,
            CacheError::MissingPointer => Failure::MissingPointer,
            CacheError::NotFound { path } => Failure::NotFound { path: path@ },
            CacheError::MalformedIntegrity => Failure::MalformedIntegrity,
        }
    }
}

impl CacheError {
    /// Whether a caller may treat this failure as a cache miss and fetch anew,
    /// rather than as a fault of the store.
    pub fn is_miss(&self) -> (miss: bool)
        ensures
            miss == (self@ is NotFound || self@ is MissingPointer),
    {
        match self {
            CacheError::NotFound { .. } => true,
            CacheError::MissingPointer => true,
            _ => false,
        }
    }
}

} // verus!
