//! Anomaly-detection shapes.

use vstd::prelude::*;

verus! {

/// Failures of anomaly-detection operations.
#[derive(Debug, Clone)]
pub enum SentinelAdapterError {
    /// A required field is absent.
    MissingField(String),
    /// The event data is malformed.
    InvalidData(String),
    /// A value could not be converted.
    ConversionError(String),
    /// Detection failed.
    DetectionError(String),
}

/// Counts of detected anomalies, by kind.
#[derive(Debug, Clone, Default)]
pub struct AnomalyStats {
    pub total_detected: u64,
    pub latency_anomalies: u64,
    pub cost_anomalies: u64,
    pub error_anomalies: u64,
    pub token_anomalies: u64,
}

} // verus!
