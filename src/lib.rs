//! Agentic execution tracking for LLM observability: execution spans, their
//! lifecycle, the structural validation of an execution tree, and the
//! per-request execution-context protocol.

pub mod timestamp;
pub mod json;
pub mod ids;
pub mod execution;
pub mod result;
pub mod headers;
pub mod middleware;
pub mod upstream;
pub mod observation;
pub mod cli;
