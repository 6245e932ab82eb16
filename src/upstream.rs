//! Data shared with the upstream subsystems whose telemetry is normalized
//! here: configuration, cost, latency, schemas, anomaly detection, the edge
//! agent, the inference gateway and the orchestrator.

pub mod config;
pub mod cost;
pub mod edge_agent;
pub mod inference_gateway;
pub mod orchestrator;
pub mod schema;
pub mod sentinel;
pub mod latency;
