//! Why a fetch or an operation of a provider gave no result.

use vstd::prelude::*;
use vstd::string::StringExecFns;

verus! {

/// Why a fetch did not deliver a body.
#[derive(Debug, Clone, Copy, PartialEq, Eq, Structural)]
pub enum FetchError {
    /// The request did not get through, or timed out.
    NetworkFailure,
    /// The source answered, but with its notice for automated visitors.
    SoftBlock,
    /// Every attempt that the policy allows was made, and none delivered.
    RetriesExhausted,
}

/// Why an operation of a provider did not give a result.
#[derive(Debug, Clone, Copy, PartialEq, Eq, Structural)]
pub enum ProviderError {
    /// The page or answer could not be fetched.
    Fetch(FetchError),
    /// A structured answer was expected and what came was not one.
    Parse,
    /// The source holds nothing for what was asked.
    NotFound,
}

impl FetchError {
    /// What went wrong, in words.
    pub fn message(&self) -> (text: String)
        ensures
            text@ == match *self {
                FetchError::NetworkFailure => "network failure"@,
                FetchError::SoftBlock => "blocked by the source"@,
                FetchError::RetriesExhausted => "Max retries exceeded"@,
            },
    {
        match self {
            FetchError::NetworkFailure => String::from_str("network failure"),
            FetchError::SoftBlock => String::from_str("blocked by the source"),
            FetchError::RetriesExhausted => String::from_str("Max retries exceeded"),
        }
    }
}

impl ProviderError {
    /// What went wrong, in words.
    pub fn message(&self) -> (text: String)
        ensures
            text@ == match *self {
                ProviderError::Fetch(e) => match e {
                    FetchError::NetworkFailure => "network failure"@,
                    FetchError::SoftBlock => "blocked by the source"@,
                    FetchError::RetriesExhausted => "Max retries exceeded"@,
                },
                ProviderError::Parse => "malformed response"@,
                ProviderError::NotFound => "not found"@,
            },
    {
        match self {
            ProviderError::Fetch(e) => e.message(),
            ProviderError::Parse => String::from_str("malformed response"),
            ProviderError::NotFound => String::from_str("not found"),
        }
    }
}

} // verus!
