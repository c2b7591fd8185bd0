use vstd::prelude::*;

use crate::error::Error;
use crate::text::owned;

verus! {

/// Which build runtime to use.
#[derive(Debug, Clone, Copy, PartialEq, Eq, Structural)]
pub enum RuntimePreference {
    Auto,
    Podman,
    Docker,
    HostNative,
}

#[derive(Debug, Clone)]
pub struct Config {
    pub scheduler: SchedulerConfig,
    pub storage: StorageConfig,
    pub security: SecurityConfig,
    pub runtime: RuntimeConfig,
    pub mcp: McpConfig,
}

#[derive(Debug, Clone)]
pub struct SchedulerConfig {
    pub concurrency: usize,
    pub default_timeout_secs: u64,
    pub shutdown_grace_secs: u64,
}

#[derive(Debug, Clone)]
pub struct StorageConfig {
    pub database_path: String,
    pub workspace_root: String,
    pub artifact_root: String,
    pub log_root: String,
    pub retention_days: u32,
}

#[derive(Debug, Clone)]
pub struct SecurityConfig {
    pub source_allowlist: Vec<String>,
    pub clone_url_allowlist: Vec<String>,
    pub denied_env: Vec<String>,
    pub max_log_read_bytes: usize,
    pub enable_host_native: bool,
}

#[derive(Debug, Clone)]
pub struct RuntimeConfig {
    pub preference: RuntimePreference,
    pub default_image: String,
    pub network_enabled: bool,
    pub memory_limit: Option<String>,
    pub cpu_limit: Option<String>,
}

#[derive(Debug, Clone)]
pub struct McpConfig {
    pub stdio_enabled: bool,
    pub control_socket: String,
}

/// The first rule that a configuration breaks, as the message it is refused
/// with; `None` when it breaks none.
pub open spec fn config_problem(c: Config) -> Option<Seq<char>> {
    if c.scheduler.concurrency == 0 {
        Some("concurrency must be at least 1"@)
    } else if c.security.source_allowlist@.len() == 0 {
        Some("source allowlist must not be empty"@)
    } else if c.runtime.preference == RuntimePreference::HostNative
        && !c.security.enable_host_native {
        Some("host-native runtime requires enable_host_native=true"@)
    } else if c.security.max_log_read_bytes == 0 {
        Some("max_log_read_bytes must be positive"@)
    } else {
        None
    }
}

impl Config {
    /// A configuration with the given source allowlist and conservative
    /// defaults elsewhere: one worker, no network, host-native builds off.
    pub fn for_test_with_allowlist(source_allowlist: Vec<String>) -> (c: Self)
        ensures
            c.scheduler.concurrency == 1,
            c.scheduler.default_timeout_secs == 3600,
            c.scheduler.shutdown_grace_secs == 10,
            c.storage.database_path@ == "/tmp/kernel-builder/kbs.db"@,
            c.storage.workspace_root@ == "/tmp/kernel-builder/workspaces"@,
            c.storage.artifact_root@ == "/tmp/kernel-builder/artifacts"@,
            c.storage.log_root@ == "/tmp/kernel-builder/logs"@,
            c.storage.retention_days == 14,
            c.security.source_allowlist@ == source_allowlist@,
            c.security.clone_url_allowlist@.len() == 0,
            c.security.denied_env@.len() == 4,
            c.security.denied_env@[0]@ == "LD_PRELOAD"@,
            c.security.denied_env@[1]@ == "LD_LIBRARY_PATH"@,
            c.security.denied_env@[2]@ == "SSH_AUTH_SOCK"@,
            c.security.denied_env@[3]@ == "GIT_ASKPASS"@,
            c.security.max_log_read_bytes == 64 * 1024,
            !c.security.enable_host_native,
            c.runtime.preference == RuntimePreference::Auto,
            c.runtime.default_image@ == "ghcr.io/kernel-builder/linux-build:latest"@,
            !c.runtime.network_enabled,
            c.runtime.memory_limit is None,
            c.runtime.cpu_limit is None,
            c.mcp.stdio_enabled,
            c.mcp.control_socket@ == "/tmp/kernel-builder/kbs.sock"@,
    {
        let mut denied_env: Vec<String> = Vec::new();
        denied_env.push(owned("LD_PRELOAD"));
        denied_env.push(owned("LD_LIBRARY_PATH"));
        denied_env.push(owned("SSH_AUTH_SOCK"));
        denied_env.push(owned("GIT_ASKPASS"));
        Config {
            scheduler: SchedulerConfig {
                concurrency: 1,
                default_timeout_secs: 3600,
                shutdown_grace_secs: 10,
            },
            storage: StorageConfig {
                database_path: owned("/tmp/kernel-builder/kbs.db"),
                workspace_root: owned("/tmp/kernel-builder/workspaces"),
                artifact_root: owned("/tmp/kernel-builder/artifacts"),
                log_root: owned("/tmp/kernel-builder/logs"),
                retention_days: 14,
            },
            security: SecurityConfig {
                source_allowlist,
                clone_url_allowlist: Vec::new(),
                denied_env,
                max_log_read_bytes: 64 * 1024,
                enable_host_native: false,
            },
            runtime: RuntimeConfig {
                preference: RuntimePreference::Auto,
                default_image: owned("ghcr.io/kernel-builder/linux-build:latest"),
                network_enabled: false,
                memory_limit: None,
                cpu_limit: None,
            },
            mcp: McpConfig {
                stdio_enabled: true,
                control_socket: owned("/tmp/kernel-builder/kbs.sock"),
            },
        }
    }

    /// Checks the rules that every configuration must keep.
    pub fn validate(&self) -> (r: Result<(), Error>)
        ensures
            r is Ok <==> config_problem(*self) is None,
            r matches Err(e) ==> e matches Error::Config(m) && Some(m@) == config_problem(*self),
    {
        if self.scheduler.concurrency == 0 {
            return Err(Error::Config(owned("concurrency must be at least 1")));
        }
        if self.security.source_allowlist.len() == 0 {
            return Err(Error::Config(owned("source allowlist must not be empty")));
        }
        if self.runtime.preference == RuntimePreference::HostNative
            && !self.security.enable_host_native {
            return Err(Error::Config(owned("host-native runtime requires enable_host_native=true")));
        }
        if self.security.max_log_read_bytes == 0 {
            return Err(Error::Config(owned("max_log_read_bytes must be positive")));
        }
        Ok(())
    }
}

} // verus!
