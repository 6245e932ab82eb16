//! Names of the HTTP headers that carry execution context. They use a prefix
//! of their own, apart from W3C trace context.

use vstd::prelude::*;

verus! {

/// Carries the top-level execution identifier.
pub const X_EXECUTION_ID: &'static str = "x-execution-id";

/// Carries the caller's span identifier.
pub const X_EXECUTION_PARENT_SPAN_ID: &'static str = "x-execution-parent-span-id";

/// Carries a repository name that overrides the configured one.
pub const X_EXECUTION_REPO_NAME: &'static str = "x-execution-repo-name";

} // verus!
