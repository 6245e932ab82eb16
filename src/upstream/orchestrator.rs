//! Telemetry shapes of the workflow orchestrator.

use std::collections::HashMap;
use vstd::prelude::*;

verus! {

/// Failures of orchestrator operations.
#[derive(Debug, Clone)]
pub enum OrchestratorAdapterError {
    /// The workflow data is malformed.
    InvalidWorkflow(String),
    /// A required field is absent.
    MissingField(String),
    /// A value could not be parsed.
    ParseError(String),
    /// A pipeline failed.
    PipelineError(String),
    /// A step failed.
    StepError(String),
}

/// Identifier of an orchestrator.
#[derive(Debug, Clone, PartialEq, Eq, Hash)]
pub struct OrchestratorId(String);

impl View for OrchestratorId {
    type V = Seq<char>;

    closed spec fn view(&self) -> Seq<char> {
        self.0@
    }
}

impl OrchestratorId {
    /// The identifier `id`.
    pub fn new(id: &str) -> (r: Self)
        ensures
            r@ == id@,
    {
        OrchestratorId(String::from_str(id))
    }

    /// The identifier as text.
    pub fn as_str(&self) -> (r: &str)
        ensures
            r@ == self@,
    {
        self.0.as_str()
    }
}

/// Identifier of a workflow.
#[derive(Debug, Clone, PartialEq, Eq, Hash)]
pub struct WorkflowId(String);

impl View for WorkflowId {
    type V = Seq<char>;

    closed spec fn view(&self) -> Seq<char> {
        self.0@
    }
}

impl WorkflowId {
    /// The identifier `id`.
    pub fn new(id: &str) -> (r: Self)
        ensures
            r@ == id@,
    {
        WorkflowId(String::from_str(id))
    }

    /// The identifier as text.
    pub fn as_str(&self) -> (r: &str)
        ensures
            r@ == self@,
    {
        self.0.as_str()
    }
}

/// Identifier of a pipeline.
#[derive(Debug, Clone, PartialEq, Eq, Hash)]
pub struct PipelineId(String);

impl View for PipelineId {
    type V = Seq<char>;

    closed spec fn view(&self) -> Seq<char> {
        self.0@
    }
}

impl PipelineId {
    /// The identifier `id`.
    pub fn new(id: &str) -> (r: Self)
        ensures
            r@ == id@,
    {
        PipelineId(String::from_str(id))
    }

    /// The identifier as text.
    pub fn as_str(&self) -> (r: &str)
        ensures
            r@ == self@,
    {
        self.0.as_str()
    }
}

/// Where a workflow is in its lifecycle.
#[derive(Debug, Clone, Copy, PartialEq, Eq, Structural)]
pub enum WorkflowStatus {
    Pending,
    Running,
    Completed,
    Failed,
    Cancelled,
    Timeout,
    Paused,
}

/// Tokens used by a workflow, in total and by model and pipeline.
#[derive(Debug, Clone, Default)]
pub struct WorkflowTokenUsage {
    pub total_prompt_tokens: u64,
    pub total_completion_tokens: u64,
    pub total_tokens: u64,
    pub by_model: HashMap<String, u64>,
    pub by_pipeline: HashMap<String, u64>,
}

/// Where a pipeline is in its lifecycle.
#[derive(Debug, Clone, Copy, PartialEq, Eq, Structural)]
pub enum PipelineStatus {
    Pending,
    Running,
    Completed,
    Failed,
    Skipped,
    Retried,
}

/// Tokens used by a pipeline.
#[derive(Debug, Clone, Default)]
pub struct PipelineTokenUsage {
    pub prompt_tokens: u64,
    pub completion_tokens: u64,
    pub total_tokens: u64,
}

/// An error of a pipeline.
#[derive(Debug, Clone)]
pub struct PipelineError {
    pub code: String,
    pub message: String,
    pub step_id: Option<String>,
    pub retryable: bool,
}

/// What a pipeline step does.
#[derive(Debug, Clone, PartialEq, Eq)]
pub enum StepType {
    LlmCompletion,
    LlmChat,
    LlmEmbedding,
    Transform,
    ApiCall,
    Database,
    Cache,
    Condition,
    Parallel,
    Loop,
    Custom(String),
}

/// Where a step is in its lifecycle.
#[derive(Debug, Clone, Copy, PartialEq, Eq, Structural)]
pub enum StepStatus {
    Pending,
    Running,
    Completed,
    Failed,
    Skipped,
    Waiting,
}

/// Tokens used by a step.
#[derive(Debug, Clone, Default)]
pub struct StepTokenUsage {
    pub prompt_tokens: u32,
    pub completion_tokens: u32,
    pub total_tokens: u32,
}

} // verus!
