//! UTC instants as plain integers, and the clock.

use vstd::prelude::*;

verus! {

/// Largest magnitude of `secs` a `Timestamp` may hold: about 253,000 years on
/// either side of the Unix epoch, inside the range of chrono's
/// `DateTime<Utc>`, so that every `Timestamp` converts to one.
pub const MAX_ABS_SECS: i64 = 8_000_000_000_000;

/// Nanoseconds in one second.
pub const NANOS_PER_SEC: u32 = 1_000_000_000;

/// Nanoseconds in one millisecond.
pub const NANOS_PER_MILLI: i128 = 1_000_000;

/// Whether a pair (seconds since the epoch, nanoseconds past that second)
/// names an instant that a `Timestamp` can hold.
pub open spec fn valid_parts(secs: int, nanos: int) -> bool {
    &&& -(MAX_ABS_SECS as int) <= secs <= MAX_ABS_SECS as int
    &&& 0 <= nanos < NANOS_PER_SEC as int
}

/// An instant in UTC: whole seconds since the Unix epoch and the
/// nanoseconds elapsed within that second.
#[derive(Clone, Copy, Debug, PartialEq, Eq)]
pub struct Timestamp {
    secs: i64,
    nanos: u32,
}

impl Timestamp {
    #[verifier::type_invariant]
    spec fn inv(self) -> bool {
        valid_parts(self.secs as int, self.nanos as int)
    }

    /// Whole seconds since the Unix epoch.
    pub closed spec fn spec_secs(self) -> int {
        self.secs as int
    }

    /// Nanoseconds past `spec_secs`.
    pub closed spec fn spec_nanos(self) -> int {
        self.nanos as int
    }

    /// The instant as nanoseconds since the Unix epoch.
    pub open spec fn total_nanos(self) -> int {
        self.spec_secs() * NANOS_PER_SEC as int + self.spec_nanos()
    }

    /// Builds the instant `secs` seconds and `nanos` nanoseconds after the
    /// Unix epoch, or `None` when the parts are out of range.
    pub fn from_parts(secs: i64, nanos: u32) -> (r: Option<Timestamp>)
        ensures
            r is Some <==> valid_parts(secs as int, nanos as int),
            r matches Some(t) ==> t.spec_secs() == secs && t.spec_nanos() == nanos,
    {
        if -MAX_ABS_SECS <= secs && secs <= MAX_ABS_SECS && nanos < NANOS_PER_SEC {
            Some(Timestamp { secs, nanos })
        } else {
            None
        }
    }

    /// Whole seconds since the Unix epoch.
    pub fn secs(&self) -> (r: i64)
        ensures
            r == self.spec_secs(),
    {
        self.secs
    }

    /// Nanoseconds elapsed within the current second.
    pub fn subsec_nanos(&self) -> (r: u32)
        ensures
            r == self.spec_nanos(),
    {
        self.nanos
    }
}

/// Whole milliseconds between two instants, in either order: the distance
/// in nanoseconds divided by one million and rounded down.
pub open spec fn abs_millis(start: Timestamp, end: Timestamp) -> int {
    let d = end.total_nanos() - start.total_nanos();
    (if d < 0 { -d } else { d }) / NANOS_PER_MILLI as int
}

/// The number of whole milliseconds between `start` and `end`, whichever
/// comes first.
pub fn abs_millis_between(start: &Timestamp, end: &Timestamp) -> (r: u64)
    ensures
        r as int == abs_millis(*start, *end),
{
    proof {
        use_type_invariant(start);
        use_type_invariant(end);
    }
    let secs: i128 = end.secs as i128 - start.secs as i128;
    let nanos: i128 = end.nanos as i128 - start.nanos as i128;
    let d: i128 = secs * 1_000_000_000 + nanos;
    let a: i128 = if d < 0 { -d } else { d };
    assert(a <= 18_000_000_001_000_000_000_000);
    let r: i128 = a / NANOS_PER_MILLI;
    assert(r <= 18_000_000_001_000_000) by (nonlinear_arith)
        requires r == a / 1_000_000, 0 <= a <= 18_000_000_001_000_000_000_000;
    r as u64
}

/// Relies on chrono's `Utc::now`: the system clock read through
/// `SystemTime::duration_since(UNIX_EPOCH)`, so seconds since the Unix epoch
/// that are never negative, and nanoseconds below one second. chrono panics
/// when the system clock is set before 1970.
#[verifier::external_body]
pub(crate) fn now() -> (r: Timestamp)
    ensures
        r.spec_secs() >= 0,
{
    let now = chrono::Utc::now();
    Timestamp { secs: now.timestamp(), nanos: now.timestamp_subsec_nanos() }
}

} // verus!
