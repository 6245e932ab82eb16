//! Telemetry shapes of the inference gateway.

use vstd::prelude::*;

verus! {

/// Failures of inference-gateway operations.
#[derive(Debug, Clone)]
pub enum InferenceGatewayAdapterError {
    /// The routing data is malformed.
    InvalidRouting(String),
    /// A required field is absent.
    MissingField(String),
    /// A value could not be parsed.
    ParseError(String),
    /// No backend can serve the request.
    BackendUnavailable(String),
    /// The routing decision failed.
    RoutingError(String),
}

/// Identifier of a gateway.
#[derive(Debug, Clone, PartialEq, Eq, Hash)]
pub struct GatewayId(String);

impl View for GatewayId {
    type V = Seq<char>;

    closed spec fn view(&self) -> Seq<char> {
        self.0@
    }
}

impl GatewayId {
    /// The identifier `id`.
    pub fn new(id: &str) -> (r: Self)
        ensures
            r@ == id@,
    {
        GatewayId(String::from_str(id))
    }

    /// The identifier as text.
    pub fn as_str(&self) -> (r: &str)
        ensures
            r@ == self@,
    {
        self.0.as_str()
    }
}

/// Identifier of a backend.
#[derive(Debug, Clone, PartialEq, Eq, Hash)]
pub struct BackendId(String);

impl View for BackendId {
    type V = Seq<char>;

    closed spec fn view(&self) -> Seq<char> {
        self.0@
    }
}

impl BackendId {
    /// The identifier `id`.
    pub fn new(id: &str) -> (r: Self)
        ensures
            r@ == id@,
    {
        BackendId(String::from_str(id))
    }

    /// The identifier as text.
    pub fn as_str(&self) -> (r: &str)
        ensures
            r@ == self@,
    {
        self.0.as_str()
    }
}

/// The outcome of a routing decision.
#[derive(Debug, Clone, Copy, PartialEq, Eq, Structural)]
pub enum RoutingDecision {
    Routed,
    Queued,
    Rejected,
    Fallback,
    NoBackend,
}

/// The strategy behind a routing decision.
#[derive(Debug, Clone, PartialEq, Eq)]
pub enum RoutingStrategy {
    RoundRobin,
    LeastConnections,
    WeightedRandom,
    LatencyBased,
    CostBased,
    ModelSpecific,
    Custom(String),
}

/// Health of a backend.
#[derive(Debug, Clone, Copy, PartialEq, Eq, Structural)]
pub enum BackendHealth {
    Healthy,
    Degraded,
    Unhealthy,
    Unknown,
}

/// Tokens used by one inference request.
#[derive(Debug, Clone)]
pub struct InferenceTokenUsage {
    pub prompt_tokens: u32,
    pub completion_tokens: u32,
    pub total_tokens: u32,
    pub cached_tokens: Option<u32>,
}

/// How an inference request ended.
#[derive(Debug, Clone, Copy, PartialEq, Eq, Structural)]
pub enum InferenceStatus {
    Success,
    Partial,
    Failed,
    Timeout,
    Cancelled,
}

/// An error of an inference request.
#[derive(Debug, Clone)]
pub struct InferenceError {
    pub code: String,
    pub message: String,
    pub source: ErrorSource,
    pub retryable: bool,
}

/// Where an inference error arose.
#[derive(Debug, Clone, Copy, PartialEq, Eq, Structural)]
pub enum ErrorSource {
    Backend,
    Gateway,
    Client,
    Network,
    Unknown,
}

} // verus!
