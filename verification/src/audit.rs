use vstd::prelude::*;

use time::OffsetDateTime;

use crate::db::unix_nanos_in_range;

verus! {

/// The current time in nanoseconds since the Unix epoch.
///
/// Trusted: wraps `OffsetDateTime::now_utc` and `unix_timestamp_nanos`. The
/// value depends on the clock; what holds of every outcome is that it is the
/// timestamp of a date the `time` crate represents.
#[verifier::external_body]
fn now_unix_nanos() -> (r: i128)
    ensures
        unix_nanos_in_range(r),
{
    OffsetDateTime::now_utc().unix_timestamp_nanos()
}

/// A record of an administrative action.
#[derive(Debug, Clone)]
pub struct AuditEvent {
    pub actor: String,
    pub action: String,
    pub target: String,
    pub created_at: i128,
}

impl AuditEvent {
    /// An event for `actor` doing `action` to `target`, stamped with the
    /// current time.
    pub fn new(actor: String, action: String, target: String) -> (e: Self)
        ensures
            e.actor == actor,
            e.action == action,
            e.target == target,
            unix_nanos_in_range(e.created_at),
    {
        AuditEvent { actor, action, target, created_at: now_unix_nanos() }
    }
}

} // verus!
