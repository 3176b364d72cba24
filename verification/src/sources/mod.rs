//! What the collector asks of a price provider, and what may go wrong.

pub mod aggregators;
pub mod gecko;
pub mod meta_agg;
pub mod upbit;

use vstd::prelude::*;
use crate::models::pool::PoolData;

verus! {

/// Why a provider could not answer. None of these is fatal: the collector
/// counts them and goes on.
#[derive(Debug)]
pub enum SourceError {
    /// The transport failed.
    Network(String),
    /// The response could not be read.
    Parse(String),
    /// The provider asked the caller to slow down.
    RateLimit,
    /// The provider knows nothing of the symbol.
    NotFound,
}

impl SourceError {
    /// The text of an error, as shown to a person.
    pub open spec fn spec_message(&self) -> Seq<char> {
        match self {
            SourceError::Network(detail) => "Network error: "@ + detail@,
            SourceError::Parse(detail) => "Parse error: "@ + detail@,
            SourceError::RateLimit => "Rate limited"@,
            SourceError::NotFound => "Not found"@,
        }
    }

    /// Renders the error as text.
    pub fn message(&self) -> (text: String)
        ensures
            text@ == self.spec_message(),
    {
        match self {
            SourceError::Network(detail) => String::from_str("Network error: ").concat(
                detail.as_str(),
            ),
            SourceError::Parse(detail) => String::from_str("Parse error: ").concat(detail.as_str()),
            SourceError::RateLimit => String::from_str("Rate limited"),
            SourceError::NotFound => String::from_str("Not found"),
        }
    }
}

impl Clone for SourceError {
    fn clone(&self) -> (copy: Self)
        ensures
            copy == *self,
    {
        match self {
            SourceError::Network(detail) => SourceError::Network(detail.clone()),
            SourceError::Parse(detail) => SourceError::Parse(detail.clone()),
            SourceError::RateLimit => SourceError::RateLimit,
            SourceError::NotFound => SourceError::NotFound,
        }
    }
}

/// A price provider. Implementations decide how the records are obtained;
/// the collector relies on nothing but the shape of the answer.
///
/// An empty list is a valid answer. A provider bounds the time of its own
/// call and reports a call that ran out of time as an error.
pub trait PoolSource {
    /// The provider's name.
    fn name(&self) -> String;

    /// The pools that the provider knows for an upper-case ticker symbol.
    fn fetch_pools(&self, symbol: &str) -> Result<Vec<PoolData>, SourceError>;
}

} // verus!
