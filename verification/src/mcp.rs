use vstd::prelude::*;

use crate::ids::{job_id_text, JobId};
use crate::model::{BuildRequest, EnvVar};
use crate::text::{decimal, decimal_text};

verus! {

/// Input of the MCP tool that schedules a kernel build.
#[derive(Debug, Clone)]
pub struct ScheduleKernelBuildInput {
    pub source_root: Option<String>,
    pub source_url: Option<String>,
    pub tree_name: Option<String>,
    pub git_ref: Option<String>,
    pub profile: Option<String>,
    pub arch: String,
    pub config_target: String,
    pub config_fragments: Vec<String>,
    pub make_targets: Vec<String>,
    pub env: Vec<EnvVar>,
    pub timeout_secs: Option<u64>,
    pub priority: Option<i64>,
    pub artifact_patterns: Vec<String>,
}

#[derive(Debug, Clone)]
pub struct GetBuildStatusInput {
    pub job_id: String,
}

#[derive(Debug, Clone)]
pub struct CancelBuildInput {
    pub job_id: String,
}

#[derive(Debug, Clone)]
pub struct TailBuildLogInput {
    pub job_id: String,
    pub max_bytes: Option<usize>,
}

#[derive(Debug, Clone)]
pub struct ListArtifactsInput {
    pub job_id: String,
}

#[derive(Debug, Clone)]
pub struct GetArtifactManifestInput {
    pub job_id: String,
}

/// The build request that a schedule input stands for; a missing priority
/// is 0.
pub open spec fn input_request(input: ScheduleKernelBuildInput) -> BuildRequest {
    BuildRequest {
        source_root: input.source_root,
        source_url: input.source_url,
        tree_name: input.tree_name,
        git_ref: input.git_ref,
        profile: input.profile,
        arch: input.arch,
        config_target: input.config_target,
        config_fragments: input.config_fragments,
        make_targets: input.make_targets,
        env: input.env,
        timeout_secs: input.timeout_secs,
        priority: match input.priority {
            Some(p) => p,
            None => 0,
        },
        artifact_patterns: input.artifact_patterns,
    }
}

/// A schedule input becomes the request with the same fields: the priority
/// it gives is kept, and a missing priority is 0.
pub proof fn schedule_input_keeps_its_fields(input: ScheduleKernelBuildInput)
    ensures
        forall|p: i64| input.priority == Some(p) ==> input_request(input).priority == p,
        input.priority is None ==> input_request(input).priority == 0,
        input_request(input).source_root == input.source_root,
        input_request(input).source_url == input.source_url,
        input_request(input).tree_name == input.tree_name,
        input_request(input).git_ref == input.git_ref,
        input_request(input).profile == input.profile,
        input_request(input).arch == input.arch,
        input_request(input).config_target == input.config_target,
        input_request(input).config_fragments == input.config_fragments,
        input_request(input).make_targets == input.make_targets,
        input_request(input).env == input.env,
        input_request(input).timeout_secs == input.timeout_secs,
        input_request(input).artifact_patterns == input.artifact_patterns,
{
}

impl ScheduleKernelBuildInput {
    pub fn into_request(self) -> (r: BuildRequest)
        ensures
            r == input_request(self),
    {
        let priority = match self.priority {
            Some(p) => p,
            None => 0,
        };
        BuildRequest {
            source_root: self.source_root,
            source_url: self.source_url,
            tree_name: self.tree_name,
            git_ref: self.git_ref,
            profile: self.profile,
            arch: self.arch,
            config_target: self.config_target,
            config_fragments: self.config_fragments,
            make_targets: self.make_targets,
            env: self.env,
            timeout_secs: self.timeout_secs,
            priority,
            artifact_patterns: self.artifact_patterns,
        }
    }
}

impl TailBuildLogInput {
    /// The number of bytes to tail: the given bound, or 4096.
    pub fn max_bytes_or_default(&self) -> (n: usize)
        ensures
            n == match self.max_bytes {
                Some(m) => m,
                None => 4096,
            },
    {
        match self.max_bytes {
            Some(m) => m,
            None => 4096,
        }
    }
}

/// `runtime=<runtime> queued_jobs=<queued> active_jobs=<active>`.
pub open spec fn status_line(runtime: Seq<char>, queued: u64, active: u64) -> Seq<char> {
    "runtime="@ + runtime + " queued_jobs="@ + decimal(queued as nat) + " active_jobs="@ + decimal(
        active as nat,
    )
}

pub fn status_text(runtime: &str, queued_jobs: u64, active_jobs: u64) -> (s: String)
    ensures
        s@ == status_line(runtime@, queued_jobs, active_jobs),
{
    let mut s = String::from_str("runtime=");
    s.append(runtime);
    s.append(" queued_jobs=");
    s.append(decimal_text(queued_jobs as u128).as_str());
    s.append(" active_jobs=");
    s.append(decimal_text(active_jobs as u128).as_str());
    s
}

/// A log tail as text: marked `[truncated]` on a line of its own when the
/// log was cut.
pub fn log_text(text: String, truncated: bool) -> (s: String)
    ensures
        s@ == if truncated {
            text@ + "\n[truncated]"@
        } else {
            text@
        },
{
    if truncated {
        let mut s = text;
        s.append("\n[truncated]");
        s
    } else {
        text
    }
}

/// `<verb> <job id>`, as in `scheduled job_…` or `canceled job_…`.
pub fn job_event_text(verb: &str, id: &JobId) -> (s: String)
    ensures
        s@ == verb@ + " "@ + job_id_text(id@),
{
    let mut s = String::from_str(verb);
    s.append(" ");
    s.append(id.to_string().as_str());
    s
}

/// An error reported to an MCP client: `error: <message>`.
pub fn error_text(message: &str) -> (s: String)
    ensures
        s@ == "error: "@ + message@,
{
    let mut s = String::from_str("error: ");
    s.append(message);
    s
}

/// The answer to removing a tree: `removed <name>`, or `no tree named <name>`
/// when there was none.
pub fn tree_removed_text(name: &str, removed: bool) -> (s: String)
    ensures
        s@ == if removed {
            "removed "@ + name@
        } else {
            "no tree named "@ + name@
        },
{
    let mut s = if removed {
        String::from_str("removed ")
    } else {
        String::from_str("no tree named ")
    };
    s.append(name);
    s
}

} // verus!
