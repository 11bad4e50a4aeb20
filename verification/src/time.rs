//! Points in time, as plain integers.

use vstd::prelude::*;

verus! {

/// A point in time: whole seconds since the Unix epoch, and the nanoseconds
/// past that second.
#[derive(Debug, Clone, Copy, PartialEq, Eq, Structural)]
pub struct Timestamp {
    pub secs: i64,
    pub nanos: u32,
}

/// The current time, read with `chrono::Utc::now`.
///
/// Nothing is promised of the value: it is whatever the system clock says.
/// `secs` is what `DateTime::timestamp` gives for it and `nanos` what
/// `DateTime::timestamp_subsec_nanos` gives. The clock must not stand before
/// the Unix epoch, which `chrono` does not accept.
#[verifier::external_body]
pub(crate) fn now() -> (t: Timestamp) {
    let t = chrono::Utc::now();
    Timestamp { secs: t.timestamp(), nanos: t.timestamp_subsec_nanos() }
}

} // verus!
