use vstd::prelude::*;

use crate::error::Error;
pub use crate::ids::JobId;

verus! {

/// Lifecycle state of a build job.
#[derive(Debug, Clone, Copy, PartialEq, Eq, Structural)]
pub enum JobState {
    Queued,
    Preparing,
    Running,
    Collecting,
    Succeeded,
    Canceling,
    Canceled,
    Failed,
    TimedOut,
}

/// A job in a terminal state never changes state again.
pub open spec fn terminal(state: JobState) -> bool {
    state is Succeeded || state is Canceled || state is Failed || state is TimedOut
}

/// The name under which a state is shown in messages.
pub open spec fn state_label(state: JobState) -> Seq<char> {
    match state {
        JobState::Queued => "Queued"@,
        JobState::Preparing => "Preparing"@,
        JobState::Running => "Running"@,
        JobState::Collecting => "Collecting"@,
        JobState::Succeeded => "Succeeded"@,
        JobState::Canceling => "Canceling"@,
        JobState::Canceled => "Canceled"@,
        JobState::Failed => "Failed"@,
        JobState::TimedOut => "TimedOut"@,
    }
}

impl JobState {
    pub fn is_terminal(self) -> (r: bool)
        ensures
            r == terminal(self),
    {
        match self {
            JobState::Succeeded | JobState::Canceled | JobState::Failed | JobState::TimedOut => true,
            _ => false,
        }
    }

    fn label(self) -> (s: &'static str)
        ensures
            s@ == state_label(self),
    {
        match self {
            JobState::Queued => "Queued",
            JobState::Preparing => "Preparing",
            JobState::Running => "Running",
            JobState::Collecting => "Collecting",
            JobState::Succeeded => "Succeeded",
            JobState::Canceling => "Canceling",
            JobState::Canceled => "Canceled",
            JobState::Failed => "Failed",
            JobState::TimedOut => "TimedOut",
        }
    }

    /// Moves to `next` unless the job is already in a terminal state.
    pub fn transition_to(self, next: JobState) -> (r: Result<JobState, Error>)
        ensures
            !terminal(self) <==> r is Ok,
            r matches Ok(s) ==> s == next,
            r matches Err(e) ==> e matches Error::InvalidState(m)
                && m@ == "cannot transition from "@ + state_label(self) + " to "@
                    + state_label(next),
    {
        if self.is_terminal() {
            let mut m = String::from_str("cannot transition from ");
            m.append(self.label());
            m.append(" to ");
            m.append(next.label());
            return Err(Error::InvalidState(m));
        }
        Ok(next)
    }
}

/// A `KEY=value` pair passed to the build environment.
#[derive(Debug, Clone)]
pub struct EnvVar {
    pub key: String,
    pub value: String,
}

/// A request to build a kernel. Exactly one source is given: a local
/// `source_root`, a clone URL in `source_url`, or a registered tree in
/// `tree_name` (resolved to one of the other two before it is checked).
#[derive(Debug, Clone)]
pub struct BuildRequest {
    pub source_root: Option<String>,
    pub source_url: Option<String>,
    pub tree_name: Option<String>,
    pub git_ref: Option<String>,
    pub profile: Option<String>,
    pub arch: String,
    pub config_target: String,
    pub config_fragments: Vec<String>,
    pub make_targets: Vec<String>,
    pub env: Vec<EnvVar>,
    pub timeout_secs: Option<u64>,
    pub priority: i64,
    pub artifact_patterns: Vec<String>,
}

/// A stored job. Timestamps are Unix times in nanoseconds.
#[derive(Debug, Clone)]
pub struct JobRecord {
    pub id: JobId,
    pub request: BuildRequest,
    pub state: JobState,
    pub created_at: i128,
    pub updated_at: i128,
    pub failure: Option<FailureInfo>,
}

/// Why a job failed.
#[derive(Debug, Clone)]
pub struct FailureInfo {
    pub category: FailureCategory,
    pub message: String,
    pub phase: String,
    pub exit_code: Option<i32>,
    pub retryable: bool,
}

#[derive(Debug, Clone, Copy, PartialEq, Eq, Structural)]
pub enum FailureCategory {
    InvalidRequest,
    PolicyDenied,
    SourceUnavailable,
    GitFailure,
    RuntimeUnavailable,
    ImageUnavailable,
    PrepareFailed,
    BuildFailed,
    ArtifactCollectionFailed,
    TimedOut,
    Canceled,
    InternalError,
}

/// A file retained from a job's output.
#[derive(Debug, Clone)]
pub struct ArtifactRecord {
    pub job_id: JobId,
    pub path: String,
    pub kind: String,
    pub bytes: u64,
    pub sha256: String,
}

#[derive(Debug, Clone)]
pub struct SchedulerHealth {
    pub version: String,
    pub database_ok: bool,
    pub runtime: String,
    pub queued_jobs: u64,
    pub active_jobs: u64,
}

/// A named source tree to register: exactly one of `source_root` and
/// `source_url`, and an optional default git ref.
#[derive(Debug, Clone)]
pub struct TreeRegistration {
    pub name: String,
    pub source_root: Option<String>,
    pub source_url: Option<String>,
    pub default_ref: Option<String>,
}

/// A registered source tree. Timestamps are Unix times in nanoseconds.
#[derive(Debug, Clone)]
pub struct TreeRecord {
    pub name: String,
    pub source_root: Option<String>,
    pub source_url: Option<String>,
    pub default_ref: Option<String>,
    pub created_at: i128,
    pub updated_at: i128,
}

} // verus!
