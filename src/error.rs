//! Errors of one provider's attempt, and of a whole race.
use crate::provider::ProviderKind;
use vstd::prelude::*;

verus! {

/// Why one provider's attempt failed.
#[derive(Debug, Clone, PartialEq, Eq)]
pub enum ProviderError {
    /// The provider is set up so that it cannot take part (an empty tip pool
    /// where a tip is required, a missing endpoint or credential).
    Configuration(String),
    /// The provider or the RPC node could not be reached, or did not answer in time.
    Transport(String),
    /// The provider answered, but refused the transaction; holds its reply.
    Submission(String),
    /// The signature did not reach the requested commitment within the poll budget.
    ConfirmationTimeout,
    /// The transaction landed with an on-chain error; holds that error.
    ConfirmationFailed(String),
}

/// One provider's failure within a race.
#[derive(Debug, PartialEq, Eq)]
pub struct ProviderFailure {
    /// The provider's position in the race.
    pub provider: usize,
    pub kind: ProviderKind,
    pub error: ProviderError,
}

/// Why a race as a whole failed.
#[derive(Debug, PartialEq, Eq)]
pub enum RaceError {
    /// No provider succeeded; holds each provider's failure, in provider order.
    AggregateFailure(Vec<ProviderFailure>),
}

} // verus!
