use vstd::prelude::*;

verus! {

/// The error taxonomy of the record store.
///
/// Every failing operation reports exactly one of these: an empty or
/// malformed identifier, a miss on a well-formed identifier, or a failure
/// of the underlying store itself.
#[derive(Debug, PartialEq)]
pub enum RepoError {
    /// The supplied identifier is empty or not a well-formed object id.
    InvalidInput,
    /// No record matches the supplied identifier.
    NotFound,
    /// The underlying store failed; carries a description of the failure.
    StoreError(String),
}

impl RepoError {
    /// The HTTP status code each error class is served with: 400 for
    /// malformed input, 404 for a miss, 500 for a store failure.
    pub fn status(&self) -> (s: u16)
        ensures
            self is InvalidInput ==> s == 400,
            self is NotFound ==> s == 404,
            self matches RepoError::StoreError(_) ==> s == 500,
    {
        match self {
            RepoError::InvalidInput => 400,
            RepoError::NotFound => 404,
            RepoError::StoreError(_) => 500,
        }
    }

    /// A human-readable description of the error, used in response bodies.
    pub fn message(&self) -> (m: String)
        ensures
            self is InvalidInput ==> m@ == "invalid ID"@,
            self is NotFound ==> m@ == "not found"@,
            self matches RepoError::StoreError(s) ==> m@ == s@,
    {
        match self {
            RepoError::InvalidInput => "invalid ID".to_owned(),
            RepoError::NotFound => "not found".to_owned(),
            RepoError::StoreError(s) => s.clone(),
        }
    }
}

} // verus!
