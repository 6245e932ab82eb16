//! The outcome of one execution within a repository, and its structural
//! validation.

use vstd::prelude::*;
use crate::execution::ExecutionSpan;

verus! {

/// The repo span of one execution, all of its agent spans, and the verdict
/// of validating them.
#[derive(Debug, Clone)]
pub struct ExecutionResult {
    /// The execution identifier, taken from the repo span.
    pub execution_id: String,
    /// The repo-level span.
    pub repo_span: ExecutionSpan,
    /// The agent-level spans, in the order the caller supplied them.
    pub agent_spans: Vec<ExecutionSpan>,
    /// Whether the last validation found no error.
    pub valid: bool,
    /// The diagnostics of the last validation, in the order found.
    pub validation_errors: Vec<String>,
    /// Artifacts over all agent spans.
    pub total_artifacts: usize,
    /// The repo span's duration.
    pub total_duration_ms: Option<u64>,
}

/// The number of artifacts over all `spans`.
pub open spec fn artifact_count(spans: Seq<ExecutionSpan>) -> int
    decreases spans.len(),
{
    if spans.len() == 0 {
        0
    } else {
        artifact_count(spans.drop_last()) + spans.last().artifacts@.len()
    }
}

/// Reported when the repo span does not name the caller's span.
pub open spec fn missing_parent_message() -> Seq<char> {
    "Repo span is missing parent_span_id from caller"@
}

/// Reported when no agent span was emitted.
pub open spec fn no_agents_message() -> Seq<char> {
    "No agent spans emitted -- execution has no evidence of agent work"@
}

/// Reported for an agent span whose parent is not the repo span.
pub open spec fn wrong_parent_message(span_id: Seq<char>, parent: Seq<char>, repo_id: Seq<char>) -> Seq<char> {
    "Agent span "@ + span_id + " has parent_span_id "@ + parent + " but expected repo span "@
        + repo_id
}

/// Reported for an agent span whose identifier an earlier agent span has.
pub open spec fn duplicate_message(span_id: Seq<char>) -> Seq<char> {
    "Duplicate agent span_id: "@ + span_id
}

/// One diagnostic per agent span not linked to the repo span `repo_id`, in
/// order.
pub open spec fn linkage_errors(agents: Seq<ExecutionSpan>, repo_id: Seq<char>) -> Seq<Seq<char>>
    decreases agents.len(),
{
    if agents.len() == 0 {
        Seq::empty()
    } else {
        let prev = linkage_errors(agents.drop_last(), repo_id);
        let s = agents.last();
        if s.parent_span_id@ != repo_id {
            prev.push(wrong_parent_message(s.span_id@, s.parent_span_id@, repo_id))
        } else {
            prev
        }
    }
}

/// The identifiers of `spans`, in order.
pub open spec fn span_ids(spans: Seq<ExecutionSpan>) -> Seq<Seq<char>> {
    spans.map_values(|s: ExecutionSpan| s.span_id@)
}

/// One diagnostic per agent span whose identifier occurs earlier, in order.
pub open spec fn duplicate_errors(agents: Seq<ExecutionSpan>) -> Seq<Seq<char>>
    decreases agents.len(),
{
    if agents.len() == 0 {
        Seq::empty()
    } else {
        let prev = duplicate_errors(agents.drop_last());
        let s = agents.last();
        if span_ids(agents.drop_last()).contains(s.span_id@) {
            prev.push(duplicate_message(s.span_id@))
        } else {
            prev
        }
    }
}

/// Every diagnostic of validating `repo` with `agents`: a missing caller
/// span, no agent span, then each unlinked agent span, then each repeated
/// identifier.
pub open spec fn expected_errors(repo: ExecutionSpan, agents: Seq<ExecutionSpan>) -> Seq<Seq<char>> {
    (if repo.parent_span_id@.len() == 0 {
        seq![missing_parent_message()]
    } else {
        Seq::empty()
    }) + (if agents.len() == 0 {
        seq![no_agents_message()]
    } else {
        Seq::empty()
    }) + linkage_errors(agents, repo.span_id@) + duplicate_errors(agents)
}

/// The views of a sequence of strings.
pub open spec fn string_views(v: Seq<String>) -> Seq<Seq<char>> {
    v.map_values(|s: String| s@)
}

/// `out` is `inp` validated: the spans untouched, the diagnostics and the
/// verdict derived from them, and the totals refreshed.
pub open spec fn validated_from(out: ExecutionResult, inp: ExecutionResult) -> bool {
    &&& out.execution_id == inp.execution_id
    &&& out.repo_span == inp.repo_span
    &&& out.agent_spans == inp.agent_spans
    &&& string_views(out.validation_errors@) == expected_errors(inp.repo_span, inp.agent_spans@)
    &&& out.valid == (expected_errors(inp.repo_span, inp.agent_spans@).len() == 0)
    &&& out.total_artifacts == artifact_count(inp.agent_spans@)
    &&& out.total_duration_ms == inp.repo_span.duration_ms
}

/// A prefix of `spans` holds no more artifacts than all of them.
proof fn lemma_artifact_count_prefix(spans: Seq<ExecutionSpan>, k: int)
    requires
        0 <= k <= spans.len(),
    ensures
        0 <= artifact_count(spans.take(k)) <= artifact_count(spans),
    decreases spans.len(),
{
    if k == spans.len() {
        assert(spans.take(k) =~= spans);
        if spans.len() > 0 {
            lemma_artifact_count_prefix(spans.drop_last(), k - 1);
            assert(spans.drop_last().take(k - 1) =~= spans.drop_last());
        }
    } else {
        lemma_artifact_count_prefix(spans.drop_last(), k);
        assert(spans.drop_last().take(k) =~= spans.take(k));
    }
}

/// The number of artifacts over all `spans`.
fn count_artifacts(spans: &Vec<ExecutionSpan>) -> (r: usize)
    requires
        artifact_count(spans@) <= usize::MAX,
    ensures
        r == artifact_count(spans@),
{
    let mut total: usize = 0;
    let mut i: usize = 0;
    assert(spans@.take(0) =~= Seq::<ExecutionSpan>::empty());
    while i < spans.len()
        invariant
            0 <= i <= spans.len(),
            total == artifact_count(spans@.take(i as int)),
            artifact_count(spans@) <= usize::MAX,
        decreases spans.len() - i,
    {
        proof {
            assert(spans@.take(i + 1).drop_last() =~= spans@.take(i as int));
            lemma_artifact_count_prefix(spans@, i + 1);
        }
        total = total + spans[i].artifacts.len();
        i = i + 1;
    }
    assert(spans@.take(i as int) =~= spans@);
    total
}

impl ExecutionResult {
    /// Assembles a result, not yet validated, from a repo span and its
    /// agent spans.
    pub fn new(repo_span: ExecutionSpan, agent_spans: Vec<ExecutionSpan>) -> (r: Self)
        requires
            artifact_count(agent_spans@) <= usize::MAX,
        ensures
            r.execution_id@ == repo_span.execution_id@,
            r.repo_span == repo_span,
            r.agent_spans == agent_spans,
            !r.valid,
            r.validation_errors@.len() == 0,
            r.total_artifacts == artifact_count(agent_spans@),
            r.total_duration_ms == repo_span.duration_ms,
    {
        let execution_id = repo_span.execution_id.clone();
        let total_duration_ms = repo_span.duration_ms;
        let total_artifacts: usize = count_artifacts(&agent_spans);
        ExecutionResult {
            execution_id,
            total_duration_ms,
            total_artifacts,
            repo_span,
            agent_spans,
            valid: false,
            validation_errors: Vec::new(),
        }
    }

    /// Checks the execution tree and records every problem found: the repo
    /// span must name the caller's span, at least one agent span must exist,
    /// every agent span must have the repo span as parent, and no two agent
    /// spans may share an identifier. The totals are refreshed whatever the
    /// verdict.
    pub fn validate(self) -> (r: Self)
        requires
            artifact_count(self.agent_spans@) <= usize::MAX,
        ensures
            validated_from(r, self),
    {
        let mut errors: Vec<String> = Vec::new();
        let repo_id = &self.repo_span.span_id;
        let agents = &self.agent_spans;
        if self.repo_span.parent_span_id.as_str().is_empty() {
            errors.push(String::from_str("Repo span is missing parent_span_id from caller"));
        }
        if agents.len() == 0 {
            errors.push(
                String::from_str(
                    "No agent spans emitted -- execution has no evidence of agent work",
                ),
            );
        }
        let ghost head = string_views(errors@);
        assert(head =~= (if self.repo_span.parent_span_id@.len() == 0 {
            seq![missing_parent_message()]
        } else {
            Seq::empty()
        }) + (if agents@.len() == 0 {
            seq![no_agents_message()]
        } else {
            Seq::empty()
        }));
        let mut i: usize = 0;
        assert(agents@.take(0) =~= Seq::<ExecutionSpan>::empty());
        assert(string_views(errors@) =~= head + linkage_errors(agents@.take(0), repo_id@));
        while i < agents.len()
            invariant
                0 <= i <= agents.len(),
                string_views(errors@) == head + linkage_errors(agents@.take(i as int), repo_id@),
            decreases agents.len() - i,
        {
            assert(agents@.take(i + 1).drop_last() =~= agents@.take(i as int));
            let a = &agents[i];
            if a.parent_span_id != *repo_id {
                let msg = String::from_str("Agent span ").concat(a.span_id.as_str()).concat(
                    " has parent_span_id ",
                ).concat(a.parent_span_id.as_str()).concat(" but expected repo span ").concat(
                    repo_id.as_str(),
                );
                let ghost before = errors@;
                errors.push(msg);
                assert(string_views(errors@) =~= string_views(before).push(msg@));
            }
            i = i + 1;
        }
        assert(agents@.take(i as int) =~= agents@);
        let ghost linked = string_views(errors@);
        let mut i: usize = 0;
        assert(string_views(errors@) =~= linked + duplicate_errors(agents@.take(0)));
        while i < agents.len()
            invariant
                0 <= i <= agents.len(),
                string_views(errors@) == linked + duplicate_errors(agents@.take(i as int)),
            decreases agents.len() - i,
        {
            assert(agents@.take(i + 1).drop_last() =~= agents@.take(i as int));
            let mut seen = false;
            let mut j: usize = 0;
            while j < i
                invariant
                    0 <= j <= i < agents.len(),
                    seen == span_ids(agents@.take(i as int)).subrange(0, j as int).contains(
                        agents@[i as int].span_id@,
                    ),
                decreases i - j,
            {
                assert(span_ids(agents@.take(i as int)).subrange(0, j + 1) =~= span_ids(
                    agents@.take(i as int),
                ).subrange(0, j as int).push(agents@[j as int].span_id@));
                proof {
                    let ids = span_ids(agents@.take(i as int)).subrange(0, j as int);
                    let ids2 = ids.push(agents@[j as int].span_id@);
                    let target = agents@[i as int].span_id@;
                    if ids2.contains(target) {
                        let k = choose|k: int| 0 <= k < ids2.len() && ids2[k] == target;
                        if k < ids.len() {
                            assert(ids[k] == target);
                        }
                    }
                    if ids.contains(target) {
                        let k = choose|k: int| 0 <= k < ids.len() && ids[k] == target;
                        assert(ids2[k] == target);
                    }
                    if agents@[j as int].span_id@ == target {
                        assert(ids2[ids.len() as int] == target);
                    }
                }
                if agents[j].span_id == agents[i].span_id {
                    seen = true;
                }
                j = j + 1;
            }
            assert(span_ids(agents@.take(i as int)).subrange(0, i as int) =~= span_ids(
                agents@.take(i as int),
            ));
            if seen {
                let msg = String::from_str("Duplicate agent span_id: ").concat(
                    agents[i].span_id.as_str(),
                );
                let ghost before = errors@;
                errors.push(msg);
                assert(string_views(errors@) =~= string_views(before).push(msg@));
            }
            i = i + 1;
        }
        assert(agents@.take(i as int) =~= agents@);
        let total_artifacts: usize = count_artifacts(&self.agent_spans);
        let valid = errors.len() == 0;
        let mut out = self;
        out.validation_errors = errors;
        out.valid = valid;
        out.total_artifacts = total_artifacts;
        out.total_duration_ms = out.repo_span.duration_ms;
        out
    }
}

/// Validation is idempotent: validating an already validated result, with
/// its spans untouched, gives the same verdict, diagnostics and totals again.
pub proof fn law_validate_idempotent(r0: ExecutionResult, r1: ExecutionResult, r2: ExecutionResult)
    requires
        validated_from(r1, r0),
        validated_from(r2, r1),
    ensures
        r2.valid == r1.valid,
        string_views(r2.validation_errors@) == string_views(r1.validation_errors@),
        r2.total_artifacts == r1.total_artifacts,
        r2.total_duration_ms == r1.total_duration_ms,
{
}

} // verus!
