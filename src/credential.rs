//! The API credential: a non-empty text value, read once per run.

use vstd::prelude::*;

verus! {

/// Why no credential could be had.
#[derive(Debug, Clone, Copy, PartialEq, Eq)]
pub enum CredentialError {
    /// The variable is not set.
    Missing,
    /// The variable is set but its value is not valid text.
    NotText,
    /// The variable is set to the empty string.
    Empty,
}

/// What reading the credential's variable gave.
#[derive(Debug, Clone)]
pub enum RawCredential {
    /// The variable is not set.
    Unset,
    /// The variable is set to a value that is not valid text.
    NotText,
    /// The variable is set to this text.
    Text(String),
}

/// The outcome owed for a raw read: its text when that is non-empty.
pub open spec fn credential_outcome(raw: RawCredential) -> Result<Seq<char>, CredentialError> {
    match raw {
        RawCredential::Unset => Err(CredentialError::Missing),
        RawCredential::NotText => Err(CredentialError::NotText),
        RawCredential::Text(s) => if s@.len() == 0 {
            Err(CredentialError::Empty)
        } else {
            Ok(s@)
        },
    }
}

/// The credential that `raw` holds, or why there is none.
pub fn xai_api_key(raw: RawCredential) -> (r: Result<String, CredentialError>)
    ensures
        match credential_outcome(raw) {
            Ok(k) => r is Ok && r->Ok_0@ == k,
            Err(e) => r is Err && r->Err_0 == e,
        },
{
    match raw {
        RawCredential::Unset => Err(CredentialError::Missing),
        RawCredential::NotText => Err(CredentialError::NotText),
        RawCredential::Text(key) => {
            if key.as_str().is_empty() {
                Err(CredentialError::Empty)
            } else {
                Ok(key)
            }
        },
    }
}

/// An unset variable, one that is not text and one that is empty fail in
/// three different ways, none of them shared with another.
pub proof fn lemma_credential_failures_distinct(empty: String)
    requires
        empty@.len() == 0,
    ensures
        credential_outcome(RawCredential::Unset) == Err::<Seq<char>, CredentialError>(
            CredentialError::Missing,
        ),
        credential_outcome(RawCredential::NotText) == Err::<Seq<char>, CredentialError>(
            CredentialError::NotText,
        ),
        credential_outcome(RawCredential::Text(empty)) == Err::<Seq<char>, CredentialError>(
            CredentialError::Empty,
        ),
        CredentialError::Missing != CredentialError::NotText,
        CredentialError::NotText != CredentialError::Empty,
        CredentialError::Missing != CredentialError::Empty,
{
}

} // verus!
