//! Cost shapes.

use vstd::prelude::*;

verus! {

/// Failures of cost operations.
#[derive(Debug, Clone)]
pub enum CostAdapterError {
    /// No token usage to price.
    MissingTokenUsage,
    /// No organization identifier.
    MissingOrganizationId,
    /// The provider is not supported.
    UnsupportedProvider(String),
    /// No pricing for the model.
    PricingNotFound(String),
    /// The calculation failed.
    CalculationError(String),
    /// Any other failure.
    InternalError(String),
}

/// Token counts of a priced request.
#[derive(Debug, Clone)]
pub struct TokenBreakdown {
    pub input_tokens: u64,
    pub output_tokens: u64,
    pub total_tokens: u64,
    pub cached_tokens: Option<u64>,
}

} // verus!
