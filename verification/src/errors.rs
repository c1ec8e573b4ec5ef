//! The pipeline's error taxonomy. Every failure of the transaction pipeline
//! is one of these; the response normalizer flattens them into the JSON
//! envelope.

use vstd::prelude::*;

verus! {

/// Why a pipeline run failed: missing or invalid configuration, a malformed
/// client input, an unreachable endpoint or unusable key, or a failed
/// contract call.
#[derive(Debug)]
pub enum PipelineError {
    /// A required configuration value (endpoint, signing key, or contract
    /// address) is missing or invalid.
    ConfigError(String),
    /// A malformed client input: an amount or key string that does not parse.
    ParseError(String),
    /// The endpoint is unreachable or the resolved key cannot form a signer.
    ConnectionError(String),
    /// The contract call was rejected or reverted by the remote chain.
    ContractError(String),
}

impl PipelineError {
    /// The text this error shows to the caller.
    pub open spec fn spec_message(self) -> Seq<char> {
        match self {
            PipelineError::ConfigError(m) => m@,
            PipelineError::ParseError(m) => m@,
            PipelineError::ConnectionError(m) => m@,
            PipelineError::ContractError(m) => m@,
        }
    }

    /// Returns the error text.
    pub fn message(&self) -> (r: String)
        ensures
            r@ == self.spec_message(),
    {
        match self {
            PipelineError::ConfigError(m) => m.clone(),
            PipelineError::ParseError(m) => m.clone(),
            PipelineError::ConnectionError(m) => m.clone(),
            PipelineError::ContractError(m) => m.clone(),
        }
    }
}

} // verus!
