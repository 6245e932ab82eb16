//! Telemetry shapes of the edge agent.

use vstd::prelude::*;

verus! {

/// Failures of edge-agent operations.
#[derive(Debug, Clone)]
pub enum EdgeAgentAdapterError {
    /// The telemetry is malformed.
    InvalidTelemetry(String),
    /// A required field is absent.
    MissingField(String),
    /// A value could not be parsed.
    ParseError(String),
    /// A value could not be serialized.
    SerializationError(String),
    /// Processing failed.
    ProcessingError(String),
}

/// Identifier of an edge node.
#[derive(Debug, Clone, PartialEq, Eq, Hash)]
pub struct EdgeNodeId(String);

impl View for EdgeNodeId {
    type V = Seq<char>;

    closed spec fn view(&self) -> Seq<char> {
        self.0@
    }
}

impl EdgeNodeId {
    /// The identifier `id`.
    pub fn new(id: &str) -> (r: Self)
        ensures
            r@ == id@,
    {
        EdgeNodeId(String::from_str(id))
    }

    /// The identifier as text.
    pub fn as_str(&self) -> (r: &str)
        ensures
            r@ == self@,
    {
        self.0.as_str()
    }
}

/// What an ingress event carries.
#[derive(Debug, Clone, PartialEq, Eq)]
pub enum IngressEventType {
    Span,
    Metric,
    Log,
    Resource,
    Custom(String),
}

/// Where an ingress event is in its processing.
#[derive(Debug, Clone, Copy, PartialEq, Eq, Structural)]
pub enum IngressStatus {
    Received,
    Validated,
    Processed,
    Failed,
    Dropped,
}

/// How the gateway routed a request.
#[derive(Debug, Clone)]
pub struct GatewayRouting {
    pub upstream_url: Option<String>,
    pub backend: Option<String>,
    pub load_balance_strategy: Option<String>,
    pub retry_count: u32,
    pub circuit_breaker_state: Option<String>,
}

impl Default for GatewayRouting {
    fn default() -> (r: Self)
        ensures
            r.upstream_url is None,
            r.backend is None,
            r.load_balance_strategy is None,
            r.retry_count == 0,
            r.circuit_breaker_state is None,
    {
        GatewayRouting {
            upstream_url: None,
            backend: None,
            load_balance_strategy: None,
            retry_count: 0,
            circuit_breaker_state: None,
        }
    }
}

/// Request and response details seen by the gateway.
#[derive(Debug, Clone)]
pub struct RequestMetadata {
    pub method: Option<String>,
    pub path: Option<String>,
    pub user_agent: Option<String>,
    pub client_ip: Option<String>,
    pub request_size_bytes: Option<u64>,
    pub response_size_bytes: Option<u64>,
    pub content_type: Option<String>,
}

impl Default for RequestMetadata {
    fn default() -> (r: Self)
        ensures
            r.method is None,
            r.path is None,
            r.user_agent is None,
            r.client_ip is None,
            r.request_size_bytes is None,
            r.response_size_bytes is None,
            r.content_type is None,
    {
        RequestMetadata {
            method: None,
            path: None,
            user_agent: None,
            client_ip: None,
            request_size_bytes: None,
            response_size_bytes: None,
            content_type: None,
        }
    }
}

/// An error reported by the gateway.
#[derive(Debug, Clone)]
pub struct GatewayError {
    pub code: String,
    pub message: String,
    pub category: ErrorCategory,
    pub retryable: bool,
}

/// The kind of a gateway error.
#[derive(Debug, Clone, Copy, PartialEq, Eq, Structural)]
pub enum ErrorCategory {
    Client,
    Server,
    Network,
    Timeout,
    RateLimit,
    Auth,
    Unknown,
}

} // verus!
