use vstd::prelude::*;

verus! {

/// Why a repository operation failed.
#[derive(Clone, Debug, PartialEq, Eq)]
pub enum RepoError {
    /// The engine could not be reached, or the exchange broke off.
    Transport(String),
    /// The engine answered a required operation with this non-success status.
    EngineStatus(u16),
    /// The document an update or delete names is not in the index.
    NotFound,
    /// A document with the id being indexed is already in the index.
    Conflict,
    /// Some documents of a bulk write still failed after the one retry.
    PartialBulkFailure,
    /// An answer of the engine could not be read.
    Malformed(String),
}

} // verus!
