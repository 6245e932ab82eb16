//! Execution spans: the repo- and agent-level nodes of an execution tree,
//! their artifacts and events, their lifecycle, and their validated builder.

use vstd::prelude::*;
use vstd::std_specs::hash::{builds_valid_hashers, obeys_key_model};
use crate::ids::{new_id, ID_LEN};
use crate::json::Attributes;
use crate::timestamp::{abs_millis, abs_millis_between, now, Timestamp};

verus! {

/// Discriminates repo-level spans from agent-level spans.
#[derive(Debug, Clone, Copy, PartialEq, Eq, Structural)]
pub enum ExecutionSpanKind {
    /// Root of an execution within one repository.
    Repo,
    /// One agent performing work within the repository.
    Agent,
}

/// Lifecycle state of a span: `Running` until it is ended exactly once.
#[derive(Debug, Clone, Copy, PartialEq, Eq, Structural)]
pub enum ExecutionSpanStatus {
    /// The span is in progress.
    Running,
    /// The span ended successfully.
    Completed,
    /// The span ended with an error.
    Failed,
    /// The span was abandoned.
    Cancelled,
}

impl Default for ExecutionSpanStatus {
    fn default() -> (r: Self)
        ensures
            r == ExecutionSpanStatus::Running,
    {
        ExecutionSpanStatus::Running
    }
}

/// Where an artifact's content lives: embedded, or stored elsewhere.
#[derive(Debug, Clone)]
pub enum ArtifactContent {
    /// Content embedded in the artifact.
    Inline {
        /// The payload itself.
        data: String,
    },
    /// Content stored externally.
    Reference {
        /// Location of the stored payload.
        uri: String,
    },
}

/// An immutable output of an agent, attached to the agent's span.
#[derive(Debug, Clone)]
pub struct Artifact {
    /// Unique artifact identifier.
    pub artifact_id: String,
    /// Identifier of the agent span the artifact belongs to.
    pub agent_span_id: String,
    /// Human-readable name.
    pub name: String,
    /// MIME type of the content.
    pub content_type: String,
    /// Content address (such as a SHA-256 digest in hex) for integrity.
    pub content_hash: String,
    /// Size of the content in bytes.
    pub size_bytes: u64,
    /// The content, inline or by reference.
    pub content: ArtifactContent,
    /// When the artifact was created.
    pub created_at: Timestamp,
    /// Additional metadata.
    pub metadata: Attributes,
}

/// A timestamped, append-only record within a span.
#[derive(Debug, Clone)]
pub struct ExecutionEvent {
    /// Event name.
    pub name: String,
    /// When the event was recorded.
    pub timestamp: Timestamp,
    /// Event attributes.
    pub attributes: Attributes,
}

/// The required fields of a span, in the order in which `build` checks them.
#[derive(Debug, Clone, Copy, PartialEq, Eq, Structural)]
pub enum SpanField {
    /// `execution_id`.
    ExecutionId,
    /// `parent_span_id`.
    ParentSpanId,
    /// `kind`.
    Kind,
    /// `repo_name`.
    RepoName,
    /// `agent_name`, required of agent spans only.
    AgentName,
}

impl SpanField {
    /// The field's name.
    pub open spec fn spec_name(self) -> Seq<char> {
        match self {
            SpanField::ExecutionId => "execution_id"@,
            SpanField::ParentSpanId => "parent_span_id"@,
            SpanField::Kind => "kind"@,
            SpanField::RepoName => "repo_name"@,
            SpanField::AgentName => "agent_name"@,
        }
    }

    /// The field's name as it appears on the wire.
    pub fn name(&self) -> (r: &'static str)
        ensures
            r@ == self.spec_name(),
    {
        match self {
            SpanField::ExecutionId => "execution_id",
            SpanField::ParentSpanId => "parent_span_id",
            SpanField::Kind => "kind",
            SpanField::RepoName => "repo_name",
            SpanField::AgentName => "agent_name",
        }
    }
}

/// Failures of span construction and of span operations.
#[derive(Debug, Clone)]
pub enum Error {
    /// A required field was not supplied to the builder.
    MissingField(SpanField),
    /// The operation does not apply to this span.
    InvalidOperation(String),
}

impl Error {
    /// The description that `message` gives.
    pub open spec fn spec_message(self) -> Seq<char> {
        match self {
            Error::MissingField(SpanField::AgentName) => "agent_name is required for agent spans"@,
            Error::MissingField(f) => f.spec_name() + " is required"@,
            Error::InvalidOperation(m) => m@,
        }
    }

    /// A human-readable description of the failure.
    pub fn message(&self) -> (r: String)
        ensures
            r@ == self.spec_message(),
    {
        match self {
            Error::MissingField(SpanField::AgentName) => String::from_str(
                "agent_name is required for agent spans",
            ),
            Error::MissingField(f) => String::from_str(f.name()).concat(" is required"),
            Error::InvalidOperation(m) => m.clone(),
        }
    }
}

/// What `attach_artifact` reports when the span is not an agent span.
pub open spec fn attach_refusal() -> Seq<char> {
    "Artifacts can only be attached to agent spans"@
}

/// The view of an optional string.
pub open spec fn opt_view(o: Option<String>) -> Option<Seq<char>> {
    match o {
        Some(s) => Some(s@),
        None => None,
    }
}

/// The duration a span carries for a start time and an optional end time.
pub open spec fn duration_of(start: Timestamp, end: Option<Timestamp>) -> Option<u64> {
    match end {
        Some(e) => Some(abs_millis(start, e) as u64),
        None => None,
    }
}

/// A single causal node of an execution: a repo span or an agent span.
#[derive(Debug, Clone)]
pub struct ExecutionSpan {
    /// Unique span identifier.
    pub span_id: String,
    /// Top-level execution identifier supplied by the caller.
    pub execution_id: String,
    /// The caller's span for a repo span; the repo span for an agent span.
    pub parent_span_id: String,
    /// Repo or agent.
    pub kind: ExecutionSpanKind,
    /// Repository name.
    pub repo_name: String,
    /// Agent name: present exactly for agent spans.
    pub agent_name: Option<String>,
    /// Lifecycle state.
    pub status: ExecutionSpanStatus,
    /// Start time.
    pub start_time: Timestamp,
    /// End time, once the span has ended.
    pub end_time: Option<Timestamp>,
    /// Whole milliseconds between start and end, present with `end_time`.
    pub duration_ms: Option<u64>,
    /// Artifacts attached to an agent span.
    pub artifacts: Vec<Artifact>,
    /// Events in the order they were recorded.
    pub events: Vec<ExecutionEvent>,
    /// Extensible attributes.
    pub attributes: Attributes,
    /// Error message of a failed span.
    pub error_message: Option<String>,
}

/// The fields that no lifecycle operation changes agree in `a` and `b`.
pub open spec fn same_identity(a: ExecutionSpan, b: ExecutionSpan) -> bool {
    &&& a.span_id == b.span_id
    &&& a.execution_id == b.execution_id
    &&& a.parent_span_id == b.parent_span_id
    &&& a.kind == b.kind
    &&& a.repo_name == b.repo_name
    &&& a.agent_name == b.agent_name
    &&& a.start_time == b.start_time
    &&& a.attributes == b.attributes
}

/// `s` has ended now in state `status`: it has an end time and the duration
/// from its start time to that end time.
pub open spec fn ended_as(s: ExecutionSpan, status: ExecutionSpanStatus) -> bool {
    &&& s.status == status
    &&& s.end_time is Some
    &&& s.duration_ms == duration_of(s.start_time, s.end_time)
}

impl ExecutionSpan {
    /// A builder with nothing set.
    pub fn builder() -> (r: ExecutionSpanBuilder)
        ensures
            r@ == BuilderView::empty(),
    {
        ExecutionSpanBuilder::default()
    }

    /// Ends the span successfully, stamping the end time and the duration.
    pub fn complete(&mut self)
        ensures
            same_identity(*final(self), *old(self)),
            ended_as(*final(self), ExecutionSpanStatus::Completed),
            final(self).artifacts == old(self).artifacts,
            final(self).events == old(self).events,
            final(self).error_message == old(self).error_message,
    {
        let t = now();
        let d: u64 = abs_millis_between(&self.start_time, &t);
        self.end_time = Some(t);
        self.duration_ms = Some(d);
        self.status = ExecutionSpanStatus::Completed;
    }

    /// Ends the span with an error, stamping the end time, the duration and
    /// the message.
    pub fn fail(&mut self, error: &str)
        ensures
            same_identity(*final(self), *old(self)),
            ended_as(*final(self), ExecutionSpanStatus::Failed),
            opt_view(final(self).error_message) == Some(error@),
            final(self).artifacts == old(self).artifacts,
            final(self).events == old(self).events,
    {
        let t = now();
        let d: u64 = abs_millis_between(&self.start_time, &t);
        self.end_time = Some(t);
        self.duration_ms = Some(d);
        self.status = ExecutionSpanStatus::Failed;
        self.error_message = Some(String::from_str(error));
    }

    /// Appends an artifact to an agent span; a repo span refuses it and is
    /// left unchanged.
    pub fn attach_artifact(&mut self, artifact: Artifact) -> (r: Result<(), Error>)
        ensures
            old(self).kind == ExecutionSpanKind::Repo ==> {
                &&& r matches Err(Error::InvalidOperation(m)) && m@ == attach_refusal()
                &&& *final(self) == *old(self)
            },
            old(self).kind == ExecutionSpanKind::Agent ==> {
                &&& r is Ok
                &&& final(self).artifacts@ == old(self).artifacts@.push(artifact)
                &&& same_identity(*final(self), *old(self))
                &&& final(self).status == old(self).status
                &&& final(self).end_time == old(self).end_time
                &&& final(self).duration_ms == old(self).duration_ms
                &&& final(self).events == old(self).events
                &&& final(self).error_message == old(self).error_message
            },
    {
        if self.kind != ExecutionSpanKind::Agent {
            return Err(
                Error::InvalidOperation(
                    String::from_str("Artifacts can only be attached to agent spans"),
                ),
            );
        }
        self.artifacts.push(artifact);
        Ok(())
    }

    /// Appends an event named `name`, stamped with the current time.
    pub fn record_event(&mut self, name: &str, attributes: Attributes)
        ensures
            final(self).events@.len() == old(self).events@.len() + 1,
            final(self).events@.drop_last() == old(self).events@,
            final(self).events@.last().name@ == name@,
            final(self).events@.last().attributes == attributes,
            same_identity(*final(self), *old(self)),
            final(self).status == old(self).status,
            final(self).end_time == old(self).end_time,
            final(self).duration_ms == old(self).duration_ms,
            final(self).artifacts == old(self).artifacts,
            final(self).error_message == old(self).error_message,
    {
        let event = ExecutionEvent { name: String::from_str(name), timestamp: now(), attributes };
        self.events.push(event);
        assert(self.events@.drop_last() =~= old(self).events@);
    }

    /// Whether the span ended successfully.
    pub fn is_completed(&self) -> (r: bool)
        ensures
            r == (self.status == ExecutionSpanStatus::Completed),
    {
        self.status == ExecutionSpanStatus::Completed
    }

    /// Whether the span ended with an error.
    pub fn is_failed(&self) -> (r: bool)
        ensures
            r == (self.status == ExecutionSpanStatus::Failed),
    {
        self.status == ExecutionSpanStatus::Failed
    }
}

/// What a builder holds, as plain values.
pub struct BuilderView {
    pub span_id: Option<Seq<char>>,
    pub execution_id: Option<Seq<char>>,
    pub parent_span_id: Option<Seq<char>>,
    pub kind: Option<ExecutionSpanKind>,
    pub repo_name: Option<Seq<char>>,
    pub agent_name: Option<Seq<char>>,
    pub status: ExecutionSpanStatus,
    pub start_time: Option<Timestamp>,
    pub end_time: Option<Timestamp>,
    pub artifacts: Seq<Artifact>,
    pub events: Seq<ExecutionEvent>,
    pub attributes: Map<String, serde_json::Value>,
    pub error_message: Option<Seq<char>>,
}

impl BuilderView {
    /// A builder with nothing set: status `Running`, no fields, no entries.
    pub open spec fn empty() -> BuilderView {
        BuilderView {
            span_id: None,
            execution_id: None,
            parent_span_id: None,
            kind: None,
            repo_name: None,
            agent_name: None,
            status: ExecutionSpanStatus::Running,
            start_time: None,
            end_time: None,
            artifacts: Seq::empty(),
            events: Seq::empty(),
            attributes: Map::empty(),
            error_message: None,
        }
    }
}

/// The first required field that `b` lacks, in the order execution id,
/// parent span id, kind, repo name, and then, for an agent span, agent name.
pub open spec fn first_missing(b: BuilderView) -> Option<SpanField> {
    if b.execution_id is None {
        Some(SpanField::ExecutionId)
    } else if b.parent_span_id is None {
        Some(SpanField::ParentSpanId)
    } else if b.kind is None {
        Some(SpanField::Kind)
    } else if b.repo_name is None {
        Some(SpanField::RepoName)
    } else if b.kind == Some(ExecutionSpanKind::Agent) && b.agent_name is None {
        Some(SpanField::AgentName)
    } else {
        None
    }
}

/// `s` is the span that `b` describes: every supplied field carried over, a
/// fresh identifier when none was supplied, and the duration derived from
/// the start and end times.
pub open spec fn built_from(s: ExecutionSpan, b: BuilderView) -> bool {
    &&& match b.span_id {
        Some(id) => s.span_id@ == id,
        None => s.span_id@.len() == ID_LEN,
    }
    &&& b.execution_id == Some(s.execution_id@)
    &&& b.parent_span_id == Some(s.parent_span_id@)
    &&& b.kind == Some(s.kind)
    &&& b.repo_name == Some(s.repo_name@)
    &&& opt_view(s.agent_name) == b.agent_name
    &&& s.status == b.status
    &&& (b.start_time matches Some(t) ==> s.start_time == t)
    &&& s.end_time == b.end_time
    &&& s.duration_ms == duration_of(s.start_time, s.end_time)
    &&& s.artifacts@ == b.artifacts
    &&& s.events@ == b.events
    &&& s.attributes@ == b.attributes
    &&& opt_view(s.error_message) == b.error_message
}

/// Validated, fluent construction of an `ExecutionSpan`.
pub struct ExecutionSpanBuilder {
    span_id: Option<String>,
    execution_id: Option<String>,
    parent_span_id: Option<String>,
    kind: Option<ExecutionSpanKind>,
    repo_name: Option<String>,
    agent_name: Option<String>,
    status: ExecutionSpanStatus,
    start_time: Option<Timestamp>,
    end_time: Option<Timestamp>,
    artifacts: Vec<Artifact>,
    events: Vec<ExecutionEvent>,
    attributes: Attributes,
    error_message: Option<String>,
}

impl View for ExecutionSpanBuilder {
    type V = BuilderView;

    closed spec fn view(&self) -> BuilderView {
        BuilderView {
            span_id: opt_view(self.span_id),
            execution_id: opt_view(self.execution_id),
            parent_span_id: opt_view(self.parent_span_id),
            kind: self.kind,
            repo_name: opt_view(self.repo_name),
            agent_name: opt_view(self.agent_name),
            status: self.status,
            start_time: self.start_time,
            end_time: self.end_time,
            artifacts: self.artifacts@,
            events: self.events@,
            attributes: self.attributes@,
            error_message: opt_view(self.error_message),
        }
    }
}

impl Default for ExecutionSpanBuilder {
    fn default() -> (r: Self)
        ensures
            r@ == BuilderView::empty(),
    {
        let r = ExecutionSpanBuilder {
            span_id: None,
            execution_id: None,
            parent_span_id: None,
            kind: None,
            repo_name: None,
            agent_name: None,
            status: ExecutionSpanStatus::Running,
            start_time: None,
            end_time: None,
            artifacts: Vec::new(),
            events: Vec::new(),
            attributes: std::collections::HashMap::new(),
            error_message: None,
        };
        assert(r@.artifacts =~= Seq::<Artifact>::empty());
        assert(r@.events =~= Seq::<ExecutionEvent>::empty());
        assert(r@.attributes =~= Map::<String, serde_json::Value>::empty());
        r
    }
}


impl ExecutionSpanBuilder {
    /// Sets the span identifier; without one, `build` generates a fresh one.
    pub fn span_id(self, id: &str) -> (r: Self)
        ensures
            r@ == (BuilderView { span_id: Some(id@), ..self@ }),
    {
        let mut b = self;
        b.span_id = Some(String::from_str(id));
        b
    }

    /// Sets the execution identifier (required).
    pub fn execution_id(self, id: &str) -> (r: Self)
        ensures
            r@ == (BuilderView { execution_id: Some(id@), ..self@ }),
    {
        let mut b = self;
        b.execution_id = Some(String::from_str(id));
        b
    }

    /// Sets the parent span identifier (required).
    pub fn parent_span_id(self, id: &str) -> (r: Self)
        ensures
            r@ == (BuilderView { parent_span_id: Some(id@), ..self@ }),
    {
        let mut b = self;
        b.parent_span_id = Some(String::from_str(id));
        b
    }

    /// Sets the kind, repo or agent (required).
    pub fn kind(self, kind: ExecutionSpanKind) -> (r: Self)
        ensures
            r@ == (BuilderView { kind: Some(kind), ..self@ }),
    {
        let mut b = self;
        b.kind = Some(kind);
        b
    }

    /// Sets the repository name (required).
    pub fn repo_name(self, name: &str) -> (r: Self)
        ensures
            r@ == (BuilderView { repo_name: Some(name@), ..self@ }),
    {
        let mut b = self;
        b.repo_name = Some(String::from_str(name));
        b
    }

    /// Sets the agent name (required for agent spans).
    pub fn agent_name(self, name: &str) -> (r: Self)
        ensures
            r@ == (BuilderView { agent_name: Some(name@), ..self@ }),
    {
        let mut b = self;
        b.agent_name = Some(String::from_str(name));
        b
    }

    /// Sets the status (default `Running`).
    pub fn status(self, status: ExecutionSpanStatus) -> (r: Self)
        ensures
            r@ == (BuilderView { status, ..self@ }),
    {
        let mut b = self;
        b.status = status;
        b
    }

    /// Sets the start time; without one, `build` uses the current time.
    pub fn start_time(self, time: Timestamp) -> (r: Self)
        ensures
            r@ == (BuilderView { start_time: Some(time), ..self@ }),
    {
        let mut b = self;
        b.start_time = Some(time);
        b
    }

    /// Sets the end time.
    pub fn end_time(self, time: Timestamp) -> (r: Self)
        ensures
            r@ == (BuilderView { end_time: Some(time), ..self@ }),
    {
        let mut b = self;
        b.end_time = Some(time);
        b
    }

    /// Appends an artifact.
    pub fn artifact(self, artifact: Artifact) -> (r: Self)
        ensures
            r@ == (BuilderView { artifacts: self@.artifacts.push(artifact), ..self@ }),
    {
        let mut b = self;
        b.artifacts.push(artifact);
        b
    }

    /// Appends an event.
    pub fn event(self, event: ExecutionEvent) -> (r: Self)
        ensures
            r@ == (BuilderView { events: self@.events.push(event), ..self@ }),
    {
        let mut b = self;
        b.events.push(event);
        b
    }

    /// Sets the attribute `key` to `value`, replacing any earlier value.
    pub fn attribute(self, key: String, value: serde_json::Value) -> (r: Self)
        ensures
            (BuilderView { attributes: self@.attributes, ..r@ }) == self@,
            obeys_key_model::<String>() && builds_valid_hashers::<std::hash::RandomState>()
                ==> r@.attributes == self@.attributes.insert(key, value),
    {
        let mut b = self;
        b.attributes.insert(key, value);
        b
    }

    /// Sets the error message (for failed spans).
    pub fn error_message(self, msg: &str) -> (r: Self)
        ensures
            r@ == (BuilderView { error_message: Some(msg@), ..self@ }),
    {
        let mut b = self;
        b.error_message = Some(String::from_str(msg));
        b
    }

    /// Builds the span, or names the first required field that is missing.
    pub fn build(self) -> (r: Result<ExecutionSpan, Error>)
        ensures
            match first_missing(self@) {
                Some(f) => r == Err::<ExecutionSpan, Error>(Error::MissingField(f)),
                None => r matches Ok(s) && built_from(s, self@),
            },
    {
        let ExecutionSpanBuilder {
            span_id,
            execution_id,
            parent_span_id,
            kind,
            repo_name,
            agent_name,
            status,
            start_time,
            end_time,
            artifacts,
            events,
            attributes,
            error_message,
        } = self;
        let span_id = match span_id {
            Some(id) => id,
            None => new_id(),
        };
        let execution_id = match execution_id {
            Some(v) => v,
            None => return Err(Error::MissingField(SpanField::ExecutionId)),
        };
        let parent_span_id = match parent_span_id {
            Some(v) => v,
            None => return Err(Error::MissingField(SpanField::ParentSpanId)),
        };
        let kind = match kind {
            Some(v) => v,
            None => return Err(Error::MissingField(SpanField::Kind)),
        };
        let repo_name = match repo_name {
            Some(v) => v,
            None => return Err(Error::MissingField(SpanField::RepoName)),
        };
        let start_time = match start_time {
            Some(t) => t,
            None => now(),
        };
        if kind == ExecutionSpanKind::Agent && agent_name.is_none() {
            return Err(Error::MissingField(SpanField::AgentName));
        }
        let duration_ms = match end_time {
            Some(end) => Some(abs_millis_between(&start_time, &end)),
            None => None,
        };
        Ok(
            ExecutionSpan {
                span_id,
                execution_id,
                parent_span_id,
                kind,
                repo_name,
                agent_name,
                status,
                start_time,
                end_time,
                duration_ms,
                artifacts,
                events,
                attributes,
                error_message,
            },
        )
    }
}


/// With every required field present, a repo span always builds, whether or
/// not an agent name was given, and an agent span fails exactly when the
/// agent name is absent.
pub proof fn law_build_required_fields(b: BuilderView)
    requires
        b.execution_id is Some,
        b.parent_span_id is Some,
        b.kind is Some,
        b.repo_name is Some,
    ensures
        b.kind == Some(ExecutionSpanKind::Repo) ==> first_missing(b) is None,
        b.kind == Some(ExecutionSpanKind::Agent) ==> (first_missing(b) == Some(SpanField::AgentName)
            <==> b.agent_name is None),
        b.kind == Some(ExecutionSpanKind::Agent) ==> (first_missing(b) is None
            <==> b.agent_name is Some),
{
}

/// The causal linkage of one request, established by the execution-context
/// protocol.
#[derive(Debug, Clone)]
pub struct ExecutionContext {
    /// The top-level execution identifier.
    pub execution_id: String,
    /// The caller's span, which becomes the repo span's parent.
    pub parent_span_id: String,
    /// The repo span created for the request.
    pub repo_span_id: Option<String>,
    /// The repository name.
    pub repo_name: String,
}

} // verus!
