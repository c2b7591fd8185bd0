use vstd::prelude::*;

use crate::config::RuntimePreference;
use crate::error::Error;
use crate::model::{BuildRequest, TreeRecord};
use crate::policy::{env_problem, request_problem, tree_problem, Policy};
use crate::model::TreeRegistration;

verus! {

/// What the daemon reports about itself.
#[derive(Debug, Clone)]
pub struct DaemonHealth {
    pub database_ok: bool,
    pub runtime: String,
    pub queued_jobs: u64,
    pub active_jobs: u64,
}

/// How a runtime preference is reported in a status: its name in lowercase.
pub open spec fn preference_label(p: RuntimePreference) -> Seq<char> {
    match p {
        RuntimePreference::Auto => "auto"@,
        RuntimePreference::Podman => "podman"@,
        RuntimePreference::Docker => "docker"@,
        RuntimePreference::HostNative => "hostnative"@,
    }
}

pub fn runtime_label(preference: RuntimePreference) -> (s: String)
    ensures
        s@ == preference_label(preference),
{
    let label = match preference {
        RuntimePreference::Auto => "auto",
        RuntimePreference::Podman => "podman",
        RuntimePreference::Docker => "docker",
        RuntimePreference::HostNative => "hostnative",
    };
    String::from_str(label)
}

/// The part of a log of `len` bytes that a tail of at most `max_bytes`
/// shows: the offset where it starts, and whether anything was cut off.
pub fn tail_window(len: usize, max_bytes: usize) -> (w: (usize, bool))
    ensures
        w.1 == (len > max_bytes),
        w.0 == (if len > max_bytes {
            len - max_bytes
        } else {
            0
        }),
        len - w.0 <= max_bytes,
{
    (len.saturating_sub(max_bytes), len > max_bytes)
}

pub open spec fn resolved_request(request: BuildRequest, tree: TreeRecord) -> BuildRequest {
    BuildRequest {
        source_root: tree.source_root,
        source_url: tree.source_url,
        git_ref: match request.git_ref {
            Some(r) => Some(r),
            None => tree.default_ref,
        },
        ..request
    }
}

fn copy_text(o: &Option<String>) -> (r: Option<String>)
    ensures
        r == *o,
{
    match o {
        Some(s) => Some(s.clone()),
        None => None,
    }
}

/// Fills in a request that names a registered tree: the tree's source root
/// or clone URL, and its default ref unless the request gives its own.
/// Refused when the request also names a source of its own.
pub fn resolve_tree_source(request: BuildRequest, tree: &TreeRecord) -> (r: Result<
    BuildRequest,
    Error,
>)
    ensures
        r is Ok <==> request.source_root is None && request.source_url is None,
        r matches Ok(resolved) ==> resolved == resolved_request(request, *tree),
        r matches Err(e) ==> e matches Error::Policy(m) && m@
            == "request must not include tree_name together with source_root or source_url"@,
{
    if request.source_root.is_some() || request.source_url.is_some() {
        return Err(
            Error::Policy(
                String::from_str(
                    "request must not include tree_name together with source_root or source_url",
                ),
            ),
        );
    }
    let git_ref = match request.git_ref {
        Some(r) => Some(r),
        None => copy_text(&tree.default_ref),
    };
    Ok(
        BuildRequest {
            source_root: copy_text(&tree.source_root),
            source_url: copy_text(&tree.source_url),
            git_ref,
            ..request
        },
    )
}

/// The request that a schedule call admits, or the message it is refused
/// with: a request naming a registered tree is first filled in from the tree
/// (`tree` is that tree, looked up by the caller), then the policy checks it.
pub open spec fn admitted_request(
    policy: Policy,
    request: BuildRequest,
    tree: Option<TreeRecord>,
) -> Result<BuildRequest, Seq<char>> {
    let resolved: Result<BuildRequest, Seq<char>> = match tree {
        Some(t) => if request.source_root is None && request.source_url is None {
            Ok(resolved_request(request, t))
        } else {
            Err("request must not include tree_name together with source_root or source_url"@)
        },
        None => Ok(request),
    };
    match resolved {
        Err(m) => Err(m),
        Ok(r) => match request_problem(policy@, r) {
            Some(m) => Err(m),
            None => Ok(r),
        },
    }
}

/// Admits a request for scheduling: fills it in from its registered tree, if
/// it names one, and checks it against the policy.
pub fn admit_schedule(policy: &Policy, request: BuildRequest, tree: Option<&TreeRecord>) -> (r:
    Result<BuildRequest, Error>)
    ensures
        ({
            let t = match tree {
                Some(t) => Some(*t),
                None => None,
            };
            match admitted_request(*policy, request, t) {
                Ok(a) => r == Ok::<BuildRequest, Error>(a),
                Err(m) => r matches Err(e) && e matches Error::Policy(em) && em@ == m,
            }
        }),
{
    let resolved = match tree {
        Some(t) => resolve_tree_source(request, t)?,
        None => request,
    };
    policy.validate_request(&resolved)?;
    Ok(resolved)
}

/// A tree that the policy accepted at registration, stored with the
/// registration's source and default ref, admits a request that names it,
/// gives no source of its own and otherwise keeps the policy: the admitted
/// request keeps the tree's name, takes the tree's source root or clone URL,
/// and takes the request's own git ref if it gives one, else the tree's
/// default ref.
pub proof fn scheduling_by_registered_tree(
    policy: Policy,
    registration: TreeRegistration,
    tree: TreeRecord,
    request: BuildRequest,
)
    requires
        tree_problem(policy@, registration) is None,
        tree.name == registration.name,
        tree.source_root == registration.source_root,
        tree.source_url == registration.source_url,
        tree.default_ref == registration.default_ref,
        request.tree_name == Some(registration.name),
        request.source_root is None,
        request.source_url is None,
        env_problem(policy@, request.env@) is None,
        request.make_targets@.len() > 0,
    ensures
        admitted_request(policy, request, Some(tree)) matches Ok(admitted) && admitted.tree_name
            == Some(registration.name) && admitted.source_root == registration.source_root
            && admitted.source_url == registration.source_url && admitted.git_ref == match request.git_ref {
            Some(r) => Some(r),
            None => registration.default_ref,
        } && admitted.arch == request.arch && admitted.make_targets == request.make_targets
            && admitted.env == request.env,
{
}

} // verus!
