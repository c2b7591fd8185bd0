use vstd::prelude::*;

use time::OffsetDateTime;

use crate::error::Error;
use crate::ids::{job_id_of_text, JobId};
use crate::model::{
    state_label, terminal, BuildRequest, FailureInfo, JobRecord, JobState, TreeRecord, TreeRegistration,
};
use crate::text::{decimal, has_prefix, owned, push_text, signed_decimal, signed_decimal_text, texts};

verus! {

/// The name under which a state is stored.
pub open spec fn state_text(state: JobState) -> Seq<char> {
    match state {
        JobState::Queued => "queued"@,
        JobState::Preparing => "preparing"@,
        JobState::Running => "running"@,
        JobState::Collecting => "collecting"@,
        JobState::Succeeded => "succeeded"@,
        JobState::Canceling => "canceling"@,
        JobState::Canceled => "canceled"@,
        JobState::Failed => "failed"@,
        JobState::TimedOut => "timed_out"@,
    }
}

/// The state stored under a name, if any.
pub open spec fn state_of_text(value: Seq<char>) -> Option<JobState> {
    if value == "queued"@ {
        Some(JobState::Queued)
    } else if value == "preparing"@ {
        Some(JobState::Preparing)
    } else if value == "running"@ {
        Some(JobState::Running)
    } else if value == "collecting"@ {
        Some(JobState::Collecting)
    } else if value == "succeeded"@ {
        Some(JobState::Succeeded)
    } else if value == "canceling"@ {
        Some(JobState::Canceling)
    } else if value == "canceled"@ {
        Some(JobState::Canceled)
    } else if value == "failed"@ {
        Some(JobState::Failed)
    } else if value == "timed_out"@ {
        Some(JobState::TimedOut)
    } else {
        None
    }
}

/// The stored name of a state.
pub fn state_name(state: JobState) -> (name: &'static str)
    ensures
        name@ == state_text(state),
{
    match state {
        JobState::Queued => "queued",
        JobState::Preparing => "preparing",
        JobState::Running => "running",
        JobState::Collecting => "collecting",
        JobState::Succeeded => "succeeded",
        JobState::Canceling => "canceling",
        JobState::Canceled => "canceled",
        JobState::Failed => "failed",
        JobState::TimedOut => "timed_out",
    }
}

/// Reads a stored state name.
pub fn parse_state(value: &str) -> (r: Result<JobState, Error>)
    ensures
        match state_of_text(value@) {
            Some(s) => r == Ok::<JobState, Error>(s),
            None => r matches Err(e) && e matches Error::Config(m) && m@ == "unknown job state "@
                + value@,
        },
{
    let v = owned(value);
    if v == owned("queued") {
        Ok(JobState::Queued)
    } else if v == owned("preparing") {
        Ok(JobState::Preparing)
    } else if v == owned("running") {
        Ok(JobState::Running)
    } else if v == owned("collecting") {
        Ok(JobState::Collecting)
    } else if v == owned("succeeded") {
        Ok(JobState::Succeeded)
    } else if v == owned("canceling") {
        Ok(JobState::Canceling)
    } else if v == owned("canceled") {
        Ok(JobState::Canceled)
    } else if v == owned("failed") {
        Ok(JobState::Failed)
    } else if v == owned("timed_out") {
        Ok(JobState::TimedOut)
    } else {
        let mut m = owned("unknown job state ");
        m.append(value);
        Err(Error::Config(m))
    }
}

/// Every state reads back from its stored name, so a state survives a round
/// trip through storage.
pub proof fn state_names_round_trip(state: JobState)
    ensures
        state_of_text(state_text(state)) == Some(state),
{
    reveal_strlit("queued");
    reveal_strlit("preparing");
    reveal_strlit("running");
    reveal_strlit("collecting");
    reveal_strlit("succeeded");
    reveal_strlit("canceling");
    reveal_strlit("canceled");
    reveal_strlit("failed");
    reveal_strlit("timed_out");
    let t = state_text(state);
    let names = seq![
        "queued"@,
        "preparing"@,
        "running"@,
        "collecting"@,
        "succeeded"@,
        "canceling"@,
        "canceled"@,
        "failed"@,
        "timed_out"@,
    ];
    assert(forall|i: int, j: int|
        0 <= i < 9 && 0 <= j < 9 && i != j ==> (#[trigger] names[i]).len() != (#[trigger] names[j]).len()
            || names[i][0] != names[j][0] || names[i][2] != names[j][2] || names[i][6] != names[j][6]);
    assert(forall|i: int, j: int|
        0 <= i < 9 && 0 <= j < 9 && i != j ==> #[trigger] names[i] != #[trigger] names[j]);
}

/// The value of a run of ASCII digits.
pub open spec fn digits_value(s: Seq<char>) -> int
    decreases s.len(),
{
    if s.len() == 0 {
        0
    } else {
        digits_value(s.drop_last()) * 10 + (s.last() as int - '0' as int)
    }
}

pub open spec fn all_digits(s: Seq<char>) -> bool {
    s.len() > 0 && forall|i: int| 0 <= i < s.len() ==> '0' <= #[trigger] s[i] <= '9'
}

/// A decimal integer as `str::parse::<i128>` reads it: an optional `+` or `-`
/// followed by one or more ASCII digits, with a value that fits in `i128`.
pub open spec fn decimal_i128(s: Seq<char>) -> Option<i128> {
    let negative = s.len() > 0 && s[0] == '-';
    let body = if s.len() > 0 && (s[0] == '-' || s[0] == '+') {
        s.drop_first()
    } else {
        s
    };
    let value = if negative {
        -digits_value(body)
    } else {
        digits_value(body)
    };
    if all_digits(body) && i128::MIN <= value <= i128::MAX {
        Some(value as i128)
    } else {
        None
    }
}

/// Parses a decimal `i128`.
///
/// Trusted: wraps `str::parse::<i128>`, whose accepted form std documents as
/// an optional sign followed by digits, refused when the value overflows.
/// The error is std's message.
#[verifier::external_body]
fn parse_i128(s: &str) -> (r: Result<i128, String>)
    ensures
        r is Ok <==> decimal_i128(s@) is Some,
        r is Ok ==> decimal_i128(s@) == Some(r->Ok_0),
{
    match s.parse::<i128>() {
        Ok(v) => Ok(v),
        Err(e) => Err(e.to_string()),
    }
}

/// Whether `time::OffsetDateTime::from_unix_timestamp_nanos` accepts a
/// timestamp: whether its whole seconds (rounded down) lie between the first
/// second of the year -9999 and the last second of the year 9999, the dates
/// that the `time` crate represents without its `large-dates` feature.
pub open spec fn unix_nanos_in_range(nanos: i128) -> bool {
    -377705116800 <= (nanos as int) / 1_000_000_000 <= 253402300799
}

/// Range check of a timestamp in nanoseconds.
///
/// Trusted: wraps `OffsetDateTime::from_unix_timestamp_nanos`, which accepts
/// exactly the timestamps whose floored seconds lie in its date range (see
/// `unix_nanos_in_range`). The error is the crate's message.
#[verifier::external_body]
fn check_unix_nanos(nanos: i128) -> (r: Result<(), String>)
    ensures
        r is Ok <==> unix_nanos_in_range(nanos),
{
    match OffsetDateTime::from_unix_timestamp_nanos(nanos) {
        Ok(_) => Ok(()),
        Err(e) => Err(e.to_string()),
    }
}

/// A stored timestamp: decimal nanoseconds since the Unix epoch, in the
/// representable range.
pub open spec fn timestamp_value(s: Seq<char>) -> Option<i128> {
    match decimal_i128(s) {
        Some(n) => if unix_nanos_in_range(n) {
            Some(n)
        } else {
            None
        },
        None => None,
    }
}

/// Reads a stored timestamp.
pub fn parse_timestamp(value: &str) -> (r: Result<i128, Error>)
    ensures
        r is Ok <==> timestamp_value(value@) is Some,
        r is Ok ==> timestamp_value(value@) == Some(r->Ok_0),
        r matches Err(e) ==> e matches Error::Config(m) && has_prefix(m@, "invalid timestamp: "@),
{
    proof {
        reveal_strlit("invalid timestamp: ");
    }
    match parse_i128(value) {
        Ok(nanos) => match check_unix_nanos(nanos) {
            Ok(()) => Ok(nanos),
            Err(detail) => {
                let mut m = owned("invalid timestamp: ");
                m.append(detail.as_str());
                assert(m@.take(19) =~= "invalid timestamp: "@);
                Err(Error::Config(m))
            },
        },
        Err(detail) => {
            let mut m = owned("invalid timestamp: ");
            m.append(detail.as_str());
            assert(m@.take(19) =~= "invalid timestamp: "@);
            Err(Error::Config(m))
        },
    }
}

/// Writes a timestamp as it is stored: its decimal nanoseconds.
pub fn timestamp_text(nanos: i128) -> (s: String)
    ensures
        s@ == signed_decimal(nanos as int),
{
    signed_decimal_text(nanos)
}

proof fn lemma_decimal_digits(n: nat)
    ensures
        all_digits(decimal(n)),
        digits_value(decimal(n)) == n,
    decreases n,
{
    let d = decimal(n);
    if n < 10 {
        assert(d.drop_last() =~= Seq::<char>::empty());
        assert(d.last() as int == '0' as int + n);
    } else {
        lemma_decimal_digits(n / 10);
        assert(d.drop_last() =~= decimal(n / 10));
        assert(d.last() as int == '0' as int + n % 10);
        assert((n / 10) * 10 + n % 10 == n) by (nonlinear_arith);
        assert forall|i: int| 0 <= i < d.len() implies '0' <= #[trigger] d[i] <= '9' by {
            if i < d.len() - 1 {
                assert(d[i] == decimal(n / 10)[i]);
            }
        }
    }
    assert(digits_value(d) == digits_value(d.drop_last()) * 10 + (d.last() as int - '0' as int));
}

/// Every `i128` written in decimal reads back as itself.
pub proof fn decimal_i128_round_trip(n: i128)
    ensures
        decimal_i128(signed_decimal(n as int)) == Some(n),
{
    let s = signed_decimal(n as int);
    if n < 0 {
        lemma_decimal_digits((-n) as nat);
        assert(s.drop_first() =~= decimal((-n) as nat));
    } else {
        lemma_decimal_digits(n as nat);
        assert(s[0] != '-' && s[0] != '+');
    }
}

/// A timestamp of a representable date, written as it is stored, reads back
/// as the same timestamp.
pub proof fn timestamp_round_trip(nanos: i128)
    requires
        unix_nanos_in_range(nanos),
    ensures
        timestamp_value(signed_decimal(nanos as int)) == Some(nanos),
{
    decimal_i128_round_trip(nanos);
}

/// A stored tree row: name, source root, source URL, default ref, creation
/// and update timestamps.
pub type TreeRow = (String, Option<String>, Option<String>, Option<String>, String, String);

/// The row stored for a tree registered at time `now`: its name, source and
/// default ref, created and updated at `now`. A representable `now` reads
/// back from both timestamp columns.
pub fn registration_row(tree: TreeRegistration, now: i128) -> (row: TreeRow)
    ensures
        row.0 == tree.name,
        row.1 == tree.source_root,
        row.2 == tree.source_url,
        row.3 == tree.default_ref,
        row.4@ == signed_decimal(now as int),
        row.5@ == signed_decimal(now as int),
        unix_nanos_in_range(now) ==> timestamp_value(row.4@) == Some(now) && timestamp_value(
            row.5@,
        ) == Some(now),
{
    proof {
        if unix_nanos_in_range(now) {
            timestamp_round_trip(now);
        }
    }
    let TreeRegistration { name, source_root, source_url, default_ref } = tree;
    (name, source_root, source_url, default_ref, timestamp_text(now), timestamp_text(now))
}

/// Builds a tree record from a stored row; refused when a timestamp is not
/// a valid stored timestamp.
pub fn tree_from_row(row: TreeRow) -> (r: Result<TreeRecord, Error>)
    ensures
        r is Ok <==> timestamp_value(row.4@) is Some && timestamp_value(row.5@) is Some,
        r matches Ok(t) ==> t.name == row.0 && t.source_root == row.1 && t.source_url == row.2
            && t.default_ref == row.3 && Some(t.created_at) == timestamp_value(row.4@) && Some(
            t.updated_at,
        ) == timestamp_value(row.5@),
        r matches Err(e) ==> e is Config,
{
    let (name, source_root, source_url, default_ref, created_at, updated_at) = row;
    let created_at = parse_timestamp(created_at.as_str())?;
    let updated_at = parse_timestamp(updated_at.as_str())?;
    Ok(TreeRecord { name, source_root, source_url, default_ref, created_at, updated_at })
}

/// Builds a job record from a stored row: its identifier, its request and
/// failure (decoded by the caller from their stored JSON, with the decoding
/// error if that failed), its state name and its two timestamps. The fields
/// are read in that order (identifier, request, state, creation, update,
/// failure) and the first one that cannot be read gives the error.
pub fn job_from_row(
    id: &str,
    request: Result<BuildRequest, Error>,
    state: &str,
    created_at: &str,
    updated_at: &str,
    failure: Result<Option<FailureInfo>, Error>,
) -> (r: Result<JobRecord, Error>)
    ensures
        match job_id_of_text(id@) {
            None => r matches Err(e) && e is Config,
            Some(v) => match request {
                Err(e) => r == Err::<JobRecord, Error>(e),
                Ok(req) => match state_of_text(state@) {
                    None => r matches Err(e) && e matches Error::Config(m) && m@
                        == "unknown job state "@ + state@,
                    Some(s) => match (timestamp_value(created_at@), timestamp_value(updated_at@)) {
                        (None, _) => r matches Err(e) && e is Config,
                        (Some(_), None) => r matches Err(e) && e is Config,
                        (Some(c), Some(u)) => match failure {
                            Err(e) => r == Err::<JobRecord, Error>(e),
                            Ok(f) => r matches Ok(job) && job.id@ == v && job.request == req
                                && job.state == s && job.created_at == c && job.updated_at == u
                                && job.failure == f,
                        },
                    },
                },
            },
        },
{
    let id = JobId::parse(id)?;
    let request = request?;
    let state = parse_state(state)?;
    let created_at = parse_timestamp(created_at)?;
    let updated_at = parse_timestamp(updated_at)?;
    let failure = failure?;
    Ok(JobRecord { id, request, state, created_at, updated_at, failure })
}

/// Moves a stored job to `next` at time `now` and appends the event that
/// records the move to its event log. Refused, with nothing changed, when the
/// job is in a terminal state.
pub fn change_state(job: &mut JobRecord, events: &mut Vec<String>, next: JobState, now: i128) -> (r:
    Result<(), Error>)
    ensures
        r is Ok <==> !terminal(old(job).state),
        r is Ok ==> final(job).id == old(job).id && final(job).request == old(job).request
            && final(job).state == next && final(job).created_at == old(job).created_at
            && final(job).updated_at == now && final(job).failure == old(job).failure && texts(
            final(events)@,
        ) == texts(old(events)@).push(state_text(next)),
        r is Err ==> *final(job) == *old(job) && final(events)@ == old(events)@,
        r matches Err(e) ==> e matches Error::InvalidState(m) && m@ == "cannot transition from "@
            + state_label(old(job).state) + " to "@ + state_label(next),
{
    match job.state.transition_to(next) {
        Ok(state) => {
            job.state = state;
            job.updated_at = now;
            push_text(events, owned(state_name(next)));
            Ok(())
        },
        Err(e) => Err(e),
    }
}

/// A new job: queued, created and updated at `now`, with no failure.
pub fn new_job_record(id: JobId, request: BuildRequest, now: i128) -> (job: JobRecord)
    ensures
        job.id == id,
        job.request == request,
        job.state == JobState::Queued,
        job.created_at == now,
        job.updated_at == now,
        job.failure is None,
{
    JobRecord {
        id,
        request,
        state: JobState::Queued,
        created_at: now,
        updated_at: now,
        failure: None,
    }
}

} // verus!
