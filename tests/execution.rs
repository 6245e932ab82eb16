use std::collections::HashMap;

use chrono::Utc;
use llm_observatory::execution::{
    Artifact, ArtifactContent, Error, ExecutionSpan, ExecutionSpanKind, ExecutionSpanStatus,
    SpanField,
};
use llm_observatory::result::ExecutionResult;
use llm_observatory::timestamp::Timestamp;
use uuid::Uuid;

fn make_repo_span(parent: &str) -> ExecutionSpan {
    ExecutionSpan::builder()
        .execution_id("exec-1")
        .parent_span_id(parent)
        .kind(ExecutionSpanKind::Repo)
        .repo_name("llm-observatory")
        .build()
        .unwrap()
}

fn make_agent_span(repo_span_id: &str) -> ExecutionSpan {
    ExecutionSpan::builder()
        .execution_id("exec-1")
        .parent_span_id(repo_span_id)
        .kind(ExecutionSpanKind::Agent)
        .repo_name("llm-observatory")
        .agent_name("test-agent")
        .build()
        .unwrap()
}

fn utc_now() -> Timestamp {
    let now = Utc::now();
    Timestamp::from_parts(now.timestamp(), now.timestamp_subsec_nanos()).unwrap()
}

fn at(secs: i64, nanos: u32) -> Timestamp {
    Timestamp::from_parts(secs, nanos).unwrap()
}

fn make_artifact(agent_span_id: &str, name: &str, data: &str, size_bytes: u64) -> Artifact {
    Artifact {
        artifact_id: Uuid::new_v4().to_string(),
        agent_span_id: agent_span_id.to_string(),
        name: name.to_string(),
        content_type: "text/plain".to_string(),
        content_hash: "abc123".to_string(),
        size_bytes,
        content: ArtifactContent::Inline { data: data.to_string() },
        created_at: utc_now(),
        metadata: HashMap::new(),
    }
}

#[test]
fn test_builder_generates_uuid_span_id() {
    let span = make_repo_span("parent-1");
    assert!(!span.span_id.is_empty());
    assert!(Uuid::parse_str(&span.span_id).is_ok());
}

#[test]
fn test_builder_requires_execution_id() {
    let result = ExecutionSpan::builder()
        .parent_span_id("parent-1")
        .kind(ExecutionSpanKind::Repo)
        .repo_name("test")
        .build();
    assert!(result.is_err());
    assert!(result.unwrap_err().message().contains("execution_id"));
}

#[test]
fn test_builder_requires_parent_span_id() {
    let result = ExecutionSpan::builder()
        .execution_id("exec-1")
        .kind(ExecutionSpanKind::Repo)
        .repo_name("test")
        .build();
    assert!(result.is_err());
    assert!(result.unwrap_err().message().contains("parent_span_id"));
}

#[test]
fn test_builder_requires_kind() {
    let result = ExecutionSpan::builder()
        .execution_id("exec-1")
        .parent_span_id("parent-1")
        .repo_name("test")
        .build();
    assert!(result.is_err());
    assert!(result.unwrap_err().message().contains("kind"));
}

#[test]
fn test_builder_requires_repo_name() {
    let result = ExecutionSpan::builder()
        .execution_id("exec-1")
        .parent_span_id("parent-1")
        .kind(ExecutionSpanKind::Repo)
        .build();
    assert!(result.is_err());
    assert!(result.unwrap_err().message().contains("repo_name"));
}

#[test]
fn test_agent_span_requires_agent_name() {
    let result = ExecutionSpan::builder()
        .execution_id("exec-1")
        .parent_span_id("parent-1")
        .kind(ExecutionSpanKind::Agent)
        .repo_name("test")
        .build();
    assert!(result.is_err());
    assert!(result.unwrap_err().message().contains("agent_name"));
}

#[test]
fn test_repo_span_does_not_require_agent_name() {
    let span = make_repo_span("parent-1");
    assert_eq!(span.kind, ExecutionSpanKind::Repo);
    assert!(span.agent_name.is_none());
}

#[test]
fn test_span_complete() {
    let mut span = make_repo_span("parent-1");
    assert_eq!(span.status, ExecutionSpanStatus::Running);
    assert!(span.end_time.is_none());

    span.complete();
    assert_eq!(span.status, ExecutionSpanStatus::Completed);
    assert!(span.end_time.is_some());
    assert!(span.duration_ms.is_some());
}

#[test]
fn test_span_fail() {
    let mut span = make_repo_span("parent-1");
    span.fail("something went wrong");
    assert_eq!(span.status, ExecutionSpanStatus::Failed);
    assert_eq!(span.error_message.as_deref(), Some("something went wrong"));
    assert!(span.end_time.is_some());
}

#[test]
fn test_artifact_attachment_only_on_agent_spans() {
    let mut repo_span = make_repo_span("parent-1");
    let artifact = Artifact {
        artifact_id: Uuid::new_v4().to_string(),
        agent_span_id: "agent-1".to_string(),
        name: "test".to_string(),
        content_type: "text/plain".to_string(),
        content_hash: "abc123".to_string(),
        size_bytes: 5,
        content: ArtifactContent::Inline { data: "hello".to_string() },
        created_at: utc_now(),
        metadata: HashMap::new(),
    };

    assert!(repo_span.attach_artifact(artifact.clone()).is_err());

    let mut agent_span = make_agent_span(&repo_span.span_id);
    assert!(agent_span.attach_artifact(artifact).is_ok());
    assert_eq!(agent_span.artifacts.len(), 1);
}

#[test]
fn test_record_event() {
    let mut span = make_repo_span("parent-1");
    assert!(span.events.is_empty());

    span.record_event("started_processing", HashMap::new());
    assert_eq!(span.events.len(), 1);
    assert_eq!(span.events[0].name, "started_processing");
}

#[test]
fn test_execution_result_valid() {
    let repo_span = make_repo_span("caller-span-1");
    let agent_span = make_agent_span(&repo_span.span_id);

    let result = ExecutionResult::new(repo_span, vec![agent_span]).validate();
    assert!(result.valid);
    assert!(result.validation_errors.is_empty());
}

#[test]
fn test_execution_result_rejects_empty_parent_span_id() {
    let repo_span = make_repo_span("");
    let agent_span = make_agent_span(&repo_span.span_id);

    let result = ExecutionResult::new(repo_span, vec![agent_span]).validate();
    assert!(!result.valid);
    assert!(result.validation_errors.iter().any(|e| e.contains("parent_span_id")));
}

#[test]
fn test_execution_result_rejects_no_agent_spans() {
    let repo_span = make_repo_span("caller-span-1");

    let result = ExecutionResult::new(repo_span, vec![]).validate();
    assert!(!result.valid);
    assert!(result.validation_errors.iter().any(|e| e.contains("No agent spans")));
}

#[test]
fn test_execution_result_rejects_wrong_parent() {
    let repo_span = make_repo_span("caller-span-1");
    let mut agent_span = make_agent_span(&repo_span.span_id);
    agent_span.parent_span_id = "wrong-parent".to_string();

    let result = ExecutionResult::new(repo_span, vec![agent_span]).validate();
    assert!(!result.valid);
    assert!(result.validation_errors.iter().any(|e| e.contains("wrong-parent")));
}

#[test]
fn test_execution_result_rejects_duplicate_span_ids() {
    let repo_span = make_repo_span("caller-span-1");
    let agent1 = make_agent_span(&repo_span.span_id);
    let mut agent2 = make_agent_span(&repo_span.span_id);
    agent2.span_id = agent1.span_id.clone();

    let result = ExecutionResult::new(repo_span, vec![agent1, agent2]).validate();
    assert!(!result.valid);
    assert!(result.validation_errors.iter().any(|e| e.contains("Duplicate")));
}

#[test]
fn test_execution_result_counts_artifacts() {
    let repo_span = make_repo_span("caller-span-1");
    let mut agent_span = make_agent_span(&repo_span.span_id);
    let artifact = Artifact {
        artifact_id: Uuid::new_v4().to_string(),
        agent_span_id: agent_span.span_id.clone(),
        name: "report".to_string(),
        content_type: "application/json".to_string(),
        content_hash: "deadbeef".to_string(),
        size_bytes: 42,
        content: ArtifactContent::Inline { data: "{}".to_string() },
        created_at: utc_now(),
        metadata: HashMap::new(),
    };
    agent_span.attach_artifact(artifact).unwrap();

    let result = ExecutionResult::new(repo_span, vec![agent_span]).validate();
    assert!(result.valid);
    assert_eq!(result.total_artifacts, 1);
}

#[test]
fn test_default_status_is_running() {
    let span = make_repo_span("parent-1");
    assert_eq!(span.status, ExecutionSpanStatus::Running);
}

#[test]
fn test_builder_with_explicit_span_id() {
    let span = ExecutionSpan::builder()
        .span_id("my-custom-id")
        .execution_id("exec-1")
        .parent_span_id("parent-1")
        .kind(ExecutionSpanKind::Repo)
        .repo_name("test")
        .build()
        .unwrap();
    assert_eq!(span.span_id, "my-custom-id");
}

#[test]
fn test_builder_with_attributes() {
    let span = ExecutionSpan::builder()
        .execution_id("exec-1")
        .parent_span_id("parent-1")
        .kind(ExecutionSpanKind::Repo)
        .repo_name("test")
        .attribute("key".to_string(), serde_json::Value::String("value".to_string()))
        .build()
        .unwrap();
    assert_eq!(
        span.attributes.get("key"),
        Some(&serde_json::Value::String("value".to_string()))
    );
}

#[test]
fn builder_reports_first_missing_field_in_order() {
    let result = ExecutionSpan::builder().kind(ExecutionSpanKind::Agent).build();
    assert!(matches!(result, Err(Error::MissingField(SpanField::ExecutionId))));
    let result = ExecutionSpan::builder().execution_id("e").repo_name("r").build();
    assert!(matches!(result, Err(Error::MissingField(SpanField::ParentSpanId))));
    let result = ExecutionSpan::builder().execution_id("e").parent_span_id("p").build();
    assert!(matches!(result, Err(Error::MissingField(SpanField::Kind))));
}

#[test]
fn builder_error_messages() {
    assert_eq!(Error::MissingField(SpanField::ExecutionId).message(), "execution_id is required");
    assert_eq!(Error::MissingField(SpanField::Kind).message(), "kind is required");
    assert_eq!(
        Error::MissingField(SpanField::AgentName).message(),
        "agent_name is required for agent spans"
    );
}

#[test]
fn repo_span_builds_with_agent_name_too() {
    let span = ExecutionSpan::builder()
        .execution_id("exec-1")
        .parent_span_id("parent-1")
        .kind(ExecutionSpanKind::Repo)
        .repo_name("test")
        .agent_name("someone")
        .build()
        .unwrap();
    assert_eq!(span.agent_name.as_deref(), Some("someone"));
}

#[test]
fn builder_computes_duration_from_explicit_times() {
    let span = ExecutionSpan::builder()
        .execution_id("exec-1")
        .parent_span_id("parent-1")
        .kind(ExecutionSpanKind::Repo)
        .repo_name("test")
        .start_time(at(10, 500_000))
        .end_time(at(12, 400_000))
        .build()
        .unwrap();
    assert_eq!(span.duration_ms, Some(1999));
    assert_eq!(span.start_time, at(10, 500_000));
    assert_eq!(span.end_time, Some(at(12, 400_000)));
}

#[test]
fn duration_is_absolute_when_end_precedes_start() {
    let span = ExecutionSpan::builder()
        .execution_id("exec-1")
        .parent_span_id("parent-1")
        .kind(ExecutionSpanKind::Repo)
        .repo_name("test")
        .start_time(at(5, 0))
        .end_time(at(3, 999_999))
        .build()
        .unwrap();
    assert_eq!(span.duration_ms, Some(1999));
}

#[test]
fn builder_without_end_time_has_no_duration() {
    let span = ExecutionSpan::builder()
        .execution_id("exec-1")
        .parent_span_id("parent-1")
        .kind(ExecutionSpanKind::Repo)
        .repo_name("test")
        .start_time(at(5, 0))
        .build()
        .unwrap();
    assert_eq!(span.duration_ms, None);
    assert_eq!(span.end_time, None);
}

#[test]
fn timestamp_rejects_out_of_range_parts() {
    assert!(Timestamp::from_parts(0, 1_000_000_000).is_none());
    assert!(Timestamp::from_parts(8_000_000_000_001, 0).is_none());
    assert!(Timestamp::from_parts(-8_000_000_000_000, 999_999_999).is_some());
    let t = Timestamp::from_parts(-8_000_000_000_000, 999_999_999).unwrap();
    assert_eq!(t.secs(), -8_000_000_000_000);
    assert_eq!(t.subsec_nanos(), 999_999_999);
}

#[test]
fn complete_measures_from_start_time() {
    let mut span = ExecutionSpan::builder()
        .execution_id("exec-1")
        .parent_span_id("parent-1")
        .kind(ExecutionSpanKind::Repo)
        .repo_name("test")
        .start_time(utc_now())
        .build()
        .unwrap();
    span.complete();
    let end = span.end_time.unwrap();
    let start = span.start_time;
    let nanos = (end.secs() as i128 - start.secs() as i128) * 1_000_000_000
        + (end.subsec_nanos() as i128 - start.subsec_nanos() as i128);
    assert_eq!(span.duration_ms, Some((nanos.abs() / 1_000_000) as u64));
    assert!(span.is_completed());
    assert!(!span.is_failed());
}

#[test]
fn fail_keeps_artifacts_and_marks_failed() {
    let mut span = make_agent_span("R1");
    span.attach_artifact(make_artifact("a", "n", "d", 1)).unwrap();
    span.fail("boom");
    assert!(span.is_failed());
    assert_eq!(span.artifacts.len(), 1);
    assert!(span.duration_ms.is_some());
}

#[test]
fn attach_artifact_refusal_message_and_no_change() {
    let mut span = make_repo_span("parent-1");
    let err = span.attach_artifact(make_artifact("x", "n", "d", 1)).unwrap_err();
    assert_eq!(err.message(), "Artifacts can only be attached to agent spans");
    assert!(matches!(err, Error::InvalidOperation(_)));
    assert!(span.artifacts.is_empty());
}

#[test]
fn attach_artifact_appends_in_order() {
    let mut span = make_agent_span("R1");
    span.attach_artifact(make_artifact("other-span", "first", "a", 1)).unwrap();
    span.attach_artifact(make_artifact("other-span", "second", "b", 2)).unwrap();
    assert_eq!(span.artifacts.len(), 2);
    assert_eq!(span.artifacts[0].name, "first");
    assert_eq!(span.artifacts[1].name, "second");
}

#[test]
fn events_keep_append_order() {
    let mut span = make_repo_span("parent-1");
    span.record_event("one", HashMap::new());
    span.record_event("two", HashMap::new());
    assert_eq!(span.events[0].name, "one");
    assert_eq!(span.events[1].name, "two");
}

#[test]
fn scenario_empty_parent_is_invalid() {
    let repo = ExecutionSpan::builder()
        .span_id("R1")
        .execution_id("exec-1")
        .parent_span_id("")
        .kind(ExecutionSpanKind::Repo)
        .repo_name("repo")
        .build()
        .unwrap();
    let agent = make_agent_span("R1");
    let result = ExecutionResult::new(repo, vec![agent]).validate();
    assert!(!result.valid);
    assert_eq!(
        result.validation_errors,
        vec!["Repo span is missing parent_span_id from caller".to_string()]
    );
}

#[test]
fn scenario_no_agent_spans_is_invalid() {
    let repo = make_repo_span("caller");
    let result = ExecutionResult::new(repo, vec![]).validate();
    assert!(!result.valid);
    assert_eq!(
        result.validation_errors,
        vec!["No agent spans emitted -- execution has no evidence of agent work".to_string()]
    );
}

fn repo_r1() -> ExecutionSpan {
    ExecutionSpan::builder()
        .span_id("R1")
        .execution_id("exec-1")
        .parent_span_id("caller")
        .kind(ExecutionSpanKind::Repo)
        .repo_name("repo")
        .build()
        .unwrap()
}

fn agent_with_id(id: &str, parent: &str) -> ExecutionSpan {
    ExecutionSpan::builder()
        .span_id(id)
        .execution_id("exec-1")
        .parent_span_id(parent)
        .kind(ExecutionSpanKind::Agent)
        .repo_name("repo")
        .agent_name("agent")
        .build()
        .unwrap()
}

#[test]
fn scenario_two_linked_agents_are_valid() {
    let result =
        ExecutionResult::new(repo_r1(), vec![agent_with_id("A1", "R1"), agent_with_id("A2", "R1")])
            .validate();
    assert!(result.valid);
    assert!(result.validation_errors.is_empty());
    assert_eq!(result.total_artifacts, 0);
}

#[test]
fn scenario_shared_agent_id_is_duplicate() {
    let result =
        ExecutionResult::new(repo_r1(), vec![agent_with_id("A1", "R1"), agent_with_id("A1", "R1")])
            .validate();
    assert!(!result.valid);
    assert_eq!(result.validation_errors, vec!["Duplicate agent span_id: A1".to_string()]);
}

#[test]
fn validation_accumulates_every_error_in_order() {
    let repo = ExecutionSpan::builder()
        .span_id("R1")
        .execution_id("exec-1")
        .parent_span_id("")
        .kind(ExecutionSpanKind::Repo)
        .repo_name("repo")
        .build()
        .unwrap();
    let agents = vec![
        agent_with_id("A1", "X"),
        agent_with_id("A1", "R1"),
        agent_with_id("A1", "R1"),
    ];
    let result = ExecutionResult::new(repo, agents).validate();
    assert!(!result.valid);
    assert_eq!(
        result.validation_errors,
        vec![
            "Repo span is missing parent_span_id from caller".to_string(),
            "Agent span A1 has parent_span_id X but expected repo span R1".to_string(),
            "Duplicate agent span_id: A1".to_string(),
            "Duplicate agent span_id: A1".to_string(),
        ]
    );
}

#[test]
fn validate_twice_gives_the_same_outcome() {
    let mut agent = agent_with_id("A1", "R1");
    agent.attach_artifact(make_artifact("A1", "r", "x", 3)).unwrap();
    let mut repo = repo_r1();
    repo.complete();
    let once = ExecutionResult::new(repo, vec![agent, agent_with_id("A1", "Z")]).validate();
    let twice = once.clone().validate();
    assert_eq!(once.valid, twice.valid);
    assert_eq!(once.validation_errors, twice.validation_errors);
    assert_eq!(once.total_artifacts, twice.total_artifacts);
    assert_eq!(once.total_duration_ms, twice.total_duration_ms);
    assert_eq!(twice.total_artifacts, 1);
    assert_eq!(twice.validation_errors.len(), 2);
}

#[test]
fn new_result_is_not_yet_validated() {
    let mut repo = repo_r1();
    repo.complete();
    let duration = repo.duration_ms;
    let result = ExecutionResult::new(repo, vec![agent_with_id("A1", "R1")]);
    assert!(!result.valid);
    assert!(result.validation_errors.is_empty());
    assert_eq!(result.execution_id, "exec-1");
    assert_eq!(result.total_duration_ms, duration);
}

#[test]
fn attach_artifact_does_not_check_the_back_reference() {
    let mut span = make_agent_span("R1");
    let foreign = make_artifact("some-other-span", "n", "d", 1);
    assert!(span.attach_artifact(foreign).is_ok());
    assert_eq!(span.artifacts[0].agent_span_id, "some-other-span");
}

#[test]
fn complete_twice_restamps_the_end() {
    let mut span = ExecutionSpan::builder()
        .execution_id("exec-1")
        .parent_span_id("parent-1")
        .kind(ExecutionSpanKind::Repo)
        .repo_name("test")
        .start_time(at(0, 0))
        .build()
        .unwrap();
    span.complete();
    let first = span.end_time.unwrap();
    span.complete();
    let second = span.end_time.unwrap();
    assert!(second.secs() >= first.secs());
    assert_eq!(span.status, ExecutionSpanStatus::Completed);
    let expected = (second.secs() as u64) * 1000 + (second.subsec_nanos() / 1_000_000) as u64;
    assert_eq!(span.duration_ms, Some(expected));
}
