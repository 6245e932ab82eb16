//! Acknowledgement of observation events received over HTTP.

use vstd::prelude::*;

verus! {

/// Status of a request accepted for later processing.
pub const ACCEPTED: u16 = 202;

/// The body acknowledging an observation event.
#[derive(Debug, Clone)]
pub struct ObservationResponse {
    /// Always `accepted`.
    pub status: &'static str,
    /// The execution the event belongs to.
    pub execution_id: String,
}

/// The answer to an observation event of execution `execution_id`: status
/// 202 and a body that echoes the execution.
pub fn acknowledge_observation(execution_id: String) -> (r: (u16, ObservationResponse))
    ensures
        r.0 == ACCEPTED,
        r.1.status@ == "accepted"@,
        r.1.execution_id == execution_id,
{
    (ACCEPTED, ObservationResponse { status: "accepted", execution_id })
}

} // verus!
