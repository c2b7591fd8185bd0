use vstd::prelude::*;

use crate::config::{config_problem, Config};
use crate::control::ControlRequest;
use crate::error::Error;
use crate::ids::{job_id_of_text, JobId};
use crate::paths::{path_join, utf8_path_join};
use crate::text::texts;

verus! {

/// Command-line arguments: an optional configuration file and a command.
#[derive(Debug, Clone)]
pub struct Args {
    pub config: Option<String>,
    pub command: Command,
}

#[derive(Debug, Clone)]
pub enum Command {
    Config { command: ConfigCommand },
    Daemon { foreground: bool },
    Mcp,
    Status,
    Jobs { command: JobsCommand },
    Logs { command: LogsCommand },
}

#[derive(Debug, Clone)]
pub enum ConfigCommand {
    Check,
}

#[derive(Debug, Clone)]
pub enum JobsCommand {
    List,
    Show { id: String },
    Cancel { id: String },
}

#[derive(Debug, Clone)]
pub enum LogsCommand {
    Tail { id: String },
}

/// What a command asks the program to do.
#[derive(Debug, Clone)]
pub enum CliAction {
    /// Report that the configuration is valid.
    ReportConfigOk,
    /// Run the daemon.
    RunDaemon { foreground: bool },
    /// Serve MCP on standard input and output, talking to the daemon's socket.
    ServeMcp { control_socket: String },
    /// Send a request to the daemon and print its response.
    Control(ControlRequest),
}

fn parse_id(id: &String) -> (r: Result<JobId, Error>)
    ensures
        match job_id_of_text(id@) {
            Some(v) => r matches Ok(j) && j@ == v,
            None => r matches Err(e) && e is Config,
        },
{
    JobId::parse(id.as_str())
}

/// Decides what a command does under a configuration: checking the
/// configuration, running the daemon, serving MCP (when enabled), or sending
/// a control request (job identifiers are parsed here; a log tail reads at
/// most the configured number of bytes).
pub fn plan_command(command: &Command, config: &Config) -> (r: Result<CliAction, Error>)
    ensures
        match *command {
            Command::Config { .. } => match config_problem(*config) {
                None => r == Ok::<CliAction, Error>(CliAction::ReportConfigOk),
                Some(m) => r matches Err(e) && e matches Error::Config(em) && em@ == m,
            },
            Command::Daemon { foreground } => r == Ok::<CliAction, Error>(
                CliAction::RunDaemon { foreground },
            ),
            Command::Mcp => if config.mcp.stdio_enabled {
                r matches Ok(CliAction::ServeMcp { control_socket }) && control_socket@
                    == config.mcp.control_socket@
            } else {
                r matches Err(e) && e matches Error::Config(m) && m@
                    == "mcp stdio is disabled in config"@
            },
            Command::Status => r matches Ok(CliAction::Control(ControlRequest::Status)),
            Command::Jobs { command: JobsCommand::List } => r matches Ok(
                CliAction::Control(ControlRequest::ListJobs),
            ),
            Command::Jobs { command: JobsCommand::Show { id } } => match job_id_of_text(id@) {
                Some(v) => r matches Ok(CliAction::Control(ControlRequest::GetJob { id: j }))
                    && j@ == v,
                None => r matches Err(e) && e is Config,
            },
            Command::Jobs { command: JobsCommand::Cancel { id } } => match job_id_of_text(id@) {
                Some(v) => r matches Ok(CliAction::Control(ControlRequest::Cancel { id: j }))
                    && j@ == v,
                None => r matches Err(e) && e is Config,
            },
            Command::Logs { command: LogsCommand::Tail { id } } => match job_id_of_text(id@) {
                Some(v) => r matches Ok(
                    CliAction::Control(ControlRequest::TailLog { id: j, max_bytes }),
                ) && j@ == v && max_bytes == config.security.max_log_read_bytes,
                None => r matches Err(e) && e is Config,
            },
        },
{
    match command {
        Command::Config { command: ConfigCommand::Check } => {
            config.validate()?;
            Ok(CliAction::ReportConfigOk)
        },
        Command::Daemon { foreground } => Ok(CliAction::RunDaemon { foreground: *foreground }),
        Command::Mcp => {
            if !config.mcp.stdio_enabled {
                return Err(Error::Config(String::from_str("mcp stdio is disabled in config")));
            }
            Ok(CliAction::ServeMcp { control_socket: config.mcp.control_socket.clone() })
        },
        Command::Status => Ok(CliAction::Control(ControlRequest::Status)),
        Command::Jobs { command: JobsCommand::List } => Ok(
            CliAction::Control(ControlRequest::ListJobs),
        ),
        Command::Jobs { command: JobsCommand::Show { id } } => Ok(
            CliAction::Control(ControlRequest::GetJob { id: parse_id(id)? }),
        ),
        Command::Jobs { command: JobsCommand::Cancel { id } } => Ok(
            CliAction::Control(ControlRequest::Cancel { id: parse_id(id)? }),
        ),
        Command::Logs { command: LogsCommand::Tail { id } } => Ok(
            CliAction::Control(
                ControlRequest::TailLog {
                    id: parse_id(id)?,
                    max_bytes: config.security.max_log_read_bytes,
                },
            ),
        ),
    }
}

/// Where to look for the configuration file, and whether a path is used
/// only when the file exists: the path given on the command line (used as
/// given), or else the system-wide file followed by the one under the home
/// directory (each used only if it exists).
pub fn config_search_paths(explicit: Option<String>, home: Option<String>) -> (r: (
    Vec<String>,
    bool,
))
    ensures
        explicit is Some ==> texts(r.0@) == seq![explicit->0@] && !r.1,
        explicit is None ==> r.1 && texts(r.0@) == seq![
            "/etc/kernel-build-scheduler/config.toml"@,
        ] + match home {
            Some(h) => seq![path_join(h@, ".config/kernel-build-scheduler/config.toml"@)],
            None => Seq::empty(),
        },
{
    let mut paths: Vec<String> = Vec::new();
    match explicit {
        Some(path) => {
            let ghost p = path@;
            paths.push(path);
            assert(texts(paths@) =~= seq![p]);
            (paths, false)
        },
        None => {
            paths.push(String::from_str("/etc/kernel-build-scheduler/config.toml"));
            let ghost first = paths@;
            if let Some(h) = home {
                paths.push(
                    utf8_path_join(h.as_str(), ".config/kernel-build-scheduler/config.toml"),
                );
            }
            assert(texts(paths@) =~= seq!["/etc/kernel-build-scheduler/config.toml"@] + match home {
                Some(h) => seq![path_join(h@, ".config/kernel-build-scheduler/config.toml"@)],
                None => Seq::empty(),
            });
            (paths, true)
        },
    }
}

} // verus!
