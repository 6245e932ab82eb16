//! The execution-context protocol at the request boundary: from the
//! execution headers of a request to an established context with its repo
//! span, a rejection, or an untracked pass-through.

use vstd::prelude::*;
use crate::execution::{
    built_from, opt_view, BuilderView, ExecutionContext, ExecutionSpan, ExecutionSpanKind,
    ExecutionSpanStatus,
};
use crate::headers::{X_EXECUTION_ID, X_EXECUTION_PARENT_SPAN_ID};
use crate::ids::{new_id, ID_LEN};

verus! {

/// Status of a request refused for what it carries.
pub const BAD_REQUEST: u16 = 400;

/// Status of a request that failed on the server's side.
pub const INTERNAL_SERVER_ERROR: u16 = 500;

/// How the execution-context protocol treats requests.
#[derive(Debug, Clone)]
pub struct ExecutionMiddlewareConfig {
    /// Repository name for repo spans, unless a request overrides it.
    pub repo_name: String,
    /// Whether requests without execution context are rejected.
    pub enforce: bool,
}

impl ExecutionMiddlewareConfig {
    /// Enforcing mode: requests must carry execution context.
    pub fn new(repo_name: &str) -> (r: Self)
        ensures
            r.repo_name@ == repo_name@,
            r.enforce,
    {
        ExecutionMiddlewareConfig { repo_name: String::from_str(repo_name), enforce: true }
    }

    /// Permissive mode: requests without execution context proceed untracked.
    pub fn permissive(repo_name: &str) -> (r: Self)
        ensures
            r.repo_name@ == repo_name@,
            !r.enforce,
    {
        ExecutionMiddlewareConfig { repo_name: String::from_str(repo_name), enforce: false }
    }
}

/// A structured refusal: an HTTP status, a stable machine-readable code and
/// a human-readable message.
#[derive(Debug, Clone)]
pub struct ExecutionError {
    /// HTTP status of the response.
    pub status: u16,
    /// Stable machine-readable code.
    pub code: &'static str,
    /// What went wrong, for people.
    pub message: String,
}

/// The execution headers that a request carried, each absent or its value.
#[derive(Debug, Clone)]
pub struct ExecutionHeaders {
    /// Value of `x-execution-id`.
    pub execution_id: Option<String>,
    /// Value of `x-execution-parent-span-id`.
    pub parent_span_id: Option<String>,
    /// Value of `x-execution-repo-name`.
    pub repo_name: Option<String>,
}

/// What becomes of a request.
#[derive(Debug, Clone)]
pub enum ContextDecision {
    /// The request is refused and the handler is not invoked.
    Rejected(ExecutionError),
    /// The context and the repo span are injected before the handler runs.
    Established(ExecutionContext, ExecutionSpan),
    /// The handler runs with no execution context.
    Untracked,
}

/// The message of a refusal for a missing header named `header`.
pub open spec fn missing_header_message(header: Seq<char>) -> Seq<char> {
    "Header '"@ + header + "' is required for all operations"@
}

/// The message of a refusal for a missing execution context.
pub open spec fn missing_context_message() -> Seq<char> {
    "Execution context not found. Ensure execution middleware is applied and x-execution-id / x-execution-parent-span-id headers are provided."@
}

/// `e` is a refusal with status `status`, code `code` and message `message`.
pub open spec fn refusal(e: ExecutionError, status: u16, code: Seq<char>, message: Seq<char>) -> bool {
    e.status == status && e.code@ == code && e.message@ == message
}

/// The repository name a request resolves to: its override, else the
/// configured name.
pub open spec fn resolved_repo_name(config: ExecutionMiddlewareConfig, headers: ExecutionHeaders) -> Seq<char> {
    match headers.repo_name {
        Some(n) => n@,
        None => config.repo_name@,
    }
}

/// The builder state from which the repo span of a request is built.
pub open spec fn repo_span_request(
    config: ExecutionMiddlewareConfig,
    headers: ExecutionHeaders,
    repo_span_id: Seq<char>,
) -> BuilderView {
    BuilderView {
        span_id: Some(repo_span_id),
        execution_id: opt_view(headers.execution_id),
        parent_span_id: opt_view(headers.parent_span_id),
        kind: Some(ExecutionSpanKind::Repo),
        repo_name: Some(resolved_repo_name(config, headers)),
        ..BuilderView::empty()
    }
}

/// `d` is the decision of the protocol for a request with `headers`, where
/// `repo_span_id` is the identifier given to a new repo span.
pub open spec fn decision_for(
    config: ExecutionMiddlewareConfig,
    headers: ExecutionHeaders,
    repo_span_id: Seq<char>,
    d: ContextDecision,
) -> bool {
    if headers.execution_id is Some && headers.parent_span_id is Some {
        (d matches ContextDecision::Established(ctx, span) && {
            &&& Some(ctx.execution_id@) == opt_view(headers.execution_id)
            &&& Some(ctx.parent_span_id@) == opt_view(headers.parent_span_id)
            &&& opt_view(ctx.repo_span_id) == Some(repo_span_id)
            &&& ctx.repo_name@ == resolved_repo_name(config, headers)
            &&& built_from(span, repo_span_request(config, headers, repo_span_id))
        })
    } else if !config.enforce {
        d is Untracked
    } else if headers.execution_id is None {
        (d matches ContextDecision::Rejected(e) && refusal(
            e,
            BAD_REQUEST,
            "MISSING_EXECUTION_ID"@,
            missing_header_message(X_EXECUTION_ID@),
        ))
    } else {
        (d matches ContextDecision::Rejected(e) && refusal(
            e,
            BAD_REQUEST,
            "MISSING_PARENT_SPAN_ID"@,
            missing_header_message(X_EXECUTION_PARENT_SPAN_ID@),
        ))
    }
}

fn missing_header(code: &'static str, header: &str) -> (e: ExecutionError)
    ensures
        refusal(e, BAD_REQUEST, code@, missing_header_message(header@)),
{
    ExecutionError {
        status: BAD_REQUEST,
        code,
        message: String::from_str("Header '").concat(header).concat(
            "' is required for all operations",
        ),
    }
}

/// Decides what becomes of a request with `headers`; a new repo span gets
/// the identifier `repo_span_id`.
///
/// With both the execution id and the parent span id present, the repo span
/// is built (kind `Repo`, status `Running`, no end time) and the context
/// names it. Otherwise an enforcing configuration refuses the request,
/// naming the first missing header, and a permissive one lets it proceed
/// untracked.
pub fn decide_context(
    config: &ExecutionMiddlewareConfig,
    headers: ExecutionHeaders,
    repo_span_id: String,
) -> (r: ContextDecision)
    ensures
        decision_for(*config, headers, repo_span_id@, r),
{
    let ghost h = headers;
    let ExecutionHeaders { execution_id, parent_span_id, repo_name } = headers;
    if config.enforce {
        if execution_id.is_none() {
            return ContextDecision::Rejected(missing_header("MISSING_EXECUTION_ID", X_EXECUTION_ID));
        }
        if parent_span_id.is_none() {
            return ContextDecision::Rejected(
                missing_header("MISSING_PARENT_SPAN_ID", X_EXECUTION_PARENT_SPAN_ID),
            );
        }
    }
    match (execution_id, parent_span_id) {
        (Some(exec_id), Some(parent_id)) => {
            let repo_name = match repo_name {
                Some(n) => n,
                None => config.repo_name.clone(),
            };
            let built = ExecutionSpan::builder().span_id(repo_span_id.as_str()).execution_id(
                exec_id.as_str(),
            ).parent_span_id(parent_id.as_str()).kind(ExecutionSpanKind::Repo).repo_name(
                repo_name.as_str(),
            ).status(ExecutionSpanStatus::Running).build();
            match built {
                Ok(repo_span) => {
                    let ctx = ExecutionContext {
                        execution_id: exec_id,
                        parent_span_id: parent_id,
                        repo_span_id: Some(repo_span_id),
                        repo_name,
                    };
                    ContextDecision::Established(ctx, repo_span)
                },
                Err(e) => {
                    if config.enforce {
                        ContextDecision::Rejected(
                            ExecutionError {
                                status: INTERNAL_SERVER_ERROR,
                                code: "EXECUTION_SPAN_CREATION_FAILED",
                                message: String::from_str("Failed to create repo span: ").concat(
                                    e.message().as_str(),
                                ),
                            },
                        )
                    } else {
                        ContextDecision::Untracked
                    }
                },
            }
        },
        _ => ContextDecision::Untracked,
    }
}

/// Runs the protocol for a request with `headers`, giving a new repo span a
/// freshly generated identifier.
pub fn establish_context(config: &ExecutionMiddlewareConfig, headers: ExecutionHeaders) -> (r:
    ContextDecision)
    ensures
        exists|id: Seq<char>| id.len() == ID_LEN && decision_for(*config, headers, id, r),
{
    let repo_span_id = new_id();
    decide_context(config, headers, repo_span_id)
}

/// The execution context a handler requires: the one established for the
/// request, or a refusal when there is none.
pub fn require_execution_context(found: Option<ExecutionContext>) -> (r: Result<
    ExecutionContext,
    ExecutionError,
>)
    ensures
        found matches Some(ctx) ==> r == Ok::<ExecutionContext, ExecutionError>(ctx),
        found is None ==> (r matches Err(e) && refusal(
            e,
            BAD_REQUEST,
            "MISSING_EXECUTION_CONTEXT"@,
            missing_context_message(),
        )),
{
    match found {
        Some(ctx) => Ok(ctx),
        None => Err(
            ExecutionError {
                status: BAD_REQUEST,
                code: "MISSING_EXECUTION_CONTEXT",
                message: String::from_str(
                    "Execution context not found. Ensure execution middleware is applied and x-execution-id / x-execution-parent-span-id headers are provided.",
                ),
            },
        ),
    }
}

} // verus!
