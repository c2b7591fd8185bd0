use kernel_builder::control::{check_reply, connect_step, socket_unavailable, ConnectStep};
use kernel_builder::cli::{config_search_paths, plan_command, CliAction, Command, ConfigCommand, JobsCommand, LogsCommand};
use kernel_builder::config::{Config, RuntimePreference};
use kernel_builder::control::ControlRequest;
use kernel_builder::daemon::{
    admit_schedule, resolve_tree_source, runtime_label, tail_window, DaemonHealth,
};
use kernel_builder::error::Error;
use kernel_builder::model::{BuildRequest, JobId, TreeRecord};
use kernel_builder::policy::Policy;

#[test]
fn daemon_health_reports_runtime_and_database() {
    let health = DaemonHealth {
        database_ok: true,
        runtime: "fake".into(),
        queued_jobs: 0,
        active_jobs: 0,
    };

    assert!(health.database_ok);
    assert_eq!(health.runtime, "fake");
}

fn config() -> Config {
    Config::for_test_with_allowlist(vec!["/allowed".into()])
}

const ID: &str = "job_018f03214f1870008000000000000000";

#[test]
fn commands_map_to_actions() {
    let config = config();
    assert!(matches!(
        plan_command(&Command::Config { command: ConfigCommand::Check }, &config),
        Ok(CliAction::ReportConfigOk)
    ));
    assert!(matches!(
        plan_command(&Command::Daemon { foreground: true }, &config),
        Ok(CliAction::RunDaemon { foreground: true })
    ));
    match plan_command(&Command::Mcp, &config) {
        Ok(CliAction::ServeMcp { control_socket }) => {
            assert_eq!(control_socket, "/tmp/kernel-builder/kbs.sock")
        }
        other => panic!("unexpected {other:?}"),
    }
    assert!(matches!(
        plan_command(&Command::Status, &config),
        Ok(CliAction::Control(ControlRequest::Status))
    ));
    assert!(matches!(
        plan_command(&Command::Jobs { command: JobsCommand::List }, &config),
        Ok(CliAction::Control(ControlRequest::ListJobs))
    ));
    let id: JobId = ID.parse().unwrap();
    match plan_command(&Command::Jobs { command: JobsCommand::Show { id: ID.into() } }, &config) {
        Ok(CliAction::Control(ControlRequest::GetJob { id: got })) => assert_eq!(got, id),
        other => panic!("unexpected {other:?}"),
    }
    match plan_command(&Command::Jobs { command: JobsCommand::Cancel { id: ID.into() } }, &config) {
        Ok(CliAction::Control(ControlRequest::Cancel { id: got })) => assert_eq!(got, id),
        other => panic!("unexpected {other:?}"),
    }
    match plan_command(&Command::Logs { command: LogsCommand::Tail { id: ID.into() } }, &config) {
        Ok(CliAction::Control(ControlRequest::TailLog { id: got, max_bytes })) => {
            assert_eq!(got, id);
            assert_eq!(max_bytes, 65536);
        }
        other => panic!("unexpected {other:?}"),
    }
    assert!(matches!(
        plan_command(&Command::Jobs { command: JobsCommand::Show { id: "nope".into() } }, &config),
        Err(Error::Config(_))
    ));
}

#[test]
fn disabled_mcp_and_invalid_config_are_refused() {
    let mut config = config();
    config.mcp.stdio_enabled = false;
    match plan_command(&Command::Mcp, &config) {
        Err(Error::Config(m)) => assert_eq!(m, "mcp stdio is disabled in config"),
        other => panic!("unexpected {other:?}"),
    }
    let empty = Config::for_test_with_allowlist(vec![]);
    match plan_command(&Command::Config { command: ConfigCommand::Check }, &empty) {
        Err(Error::Config(m)) => assert_eq!(m, "source allowlist must not be empty"),
        other => panic!("unexpected {other:?}"),
    }
}

#[test]
fn config_search_order() {
    let (paths, only_existing) = config_search_paths(Some("/etc/custom.toml".into()), Some("/home/u".into()));
    assert_eq!(paths, vec!["/etc/custom.toml"]);
    assert!(!only_existing);
    let (paths, only_existing) = config_search_paths(None, Some("/home/u".into()));
    assert_eq!(
        paths,
        vec![
            "/etc/kernel-build-scheduler/config.toml",
            "/home/u/.config/kernel-build-scheduler/config.toml"
        ]
    );
    assert!(only_existing);
    let (paths, _) = config_search_paths(None, None);
    assert_eq!(paths, vec!["/etc/kernel-build-scheduler/config.toml"]);
}

#[test]
fn status_labels_and_log_windows() {
    assert_eq!(runtime_label(RuntimePreference::Auto), "auto");
    assert_eq!(runtime_label(RuntimePreference::HostNative), "hostnative");
    assert_eq!(tail_window(10, 4), (6, true));
    assert_eq!(tail_window(4, 4), (0, false));
    assert_eq!(tail_window(0, 4), (0, false));
}

fn tree_request() -> BuildRequest {
    BuildRequest {
        source_root: None,
        source_url: None,
        tree_name: Some("linux-next".into()),
        git_ref: None,
        profile: None,
        arch: "arm64".into(),
        config_target: "defconfig".into(),
        config_fragments: vec![],
        make_targets: vec!["Image".into()],
        env: vec![],
        timeout_secs: None,
        priority: 0,
        artifact_patterns: vec![],
    }
}

#[test]
fn scheduling_by_tree_name_uses_the_registered_source() {
    let tree = TreeRecord {
        name: "linux-next".into(),
        source_root: None,
        source_url: Some("https://github.com/spidy/linux-next.git".into()),
        default_ref: Some("main".into()),
        created_at: 1,
        updated_at: 1,
    };
    let resolved = resolve_tree_source(tree_request(), &tree).unwrap();
    assert_eq!(resolved.tree_name.as_deref(), Some("linux-next"));
    assert_eq!(resolved.source_url.as_deref(), Some("https://github.com/spidy/linux-next.git"));
    assert_eq!(resolved.git_ref.as_deref(), Some("main"));

    let mut config = config();
    config.security.clone_url_allowlist = vec!["https://github.com/spidy/".into()];
    Policy::new(config.security).validate_request(&resolved).unwrap();

    let mut pinned = tree_request();
    pinned.git_ref = Some("next-20240101".into());
    let resolved = resolve_tree_source(pinned, &tree).unwrap();
    assert_eq!(resolved.git_ref.as_deref(), Some("next-20240101"));

    let mut both = tree_request();
    both.source_root = Some("/allowed/linux".into());
    assert!(matches!(resolve_tree_source(both, &tree), Err(Error::Policy(_))));
}

#[test]
fn schedule_admission_resolves_then_checks() {
    let tree = TreeRecord {
        name: "linux-next".into(),
        source_root: None,
        source_url: Some("https://github.com/spidy/linux-next.git".into()),
        default_ref: Some("main".into()),
        created_at: 1,
        updated_at: 1,
    };
    let mut config = config();
    config.security.clone_url_allowlist = vec!["https://github.com/spidy/".into()];
    let policy = Policy::new(config.security.clone());
    let admitted = admit_schedule(&policy, tree_request(), Some(&tree)).unwrap();
    assert_eq!(admitted.git_ref.as_deref(), Some("main"));

    let closed = Policy::new(Config::for_test_with_allowlist(vec!["/allowed".into()]).security);
    match admit_schedule(&closed, tree_request(), Some(&tree)) {
        Err(Error::Policy(m)) => {
            assert_eq!(m, "clone URL https://github.com/spidy/linux-next.git is outside allowlist")
        }
        other => panic!("unexpected {other:?}"),
    }
    match admit_schedule(&policy, tree_request(), None) {
        Err(Error::Policy(m)) => {
            assert_eq!(m, "request must include source_root, source_url, or tree_name")
        }
        other => panic!("unexpected {other:?}"),
    }
}

#[test]
fn control_client_retries_and_refuses_empty_replies() {
    assert_eq!(connect_step(0), ConnectStep::Probe { wait_millis: 10 });
    assert_eq!(connect_step(49), ConnectStep::Probe { wait_millis: 10 });
    assert_eq!(connect_step(50), ConnectStep::GiveUp);
    match socket_unavailable("/tmp/kbs.sock") {
        Error::Runtime(m) => assert_eq!(m, "control socket /tmp/kbs.sock is unavailable"),
        other => panic!("unexpected {other:?}"),
    }
    assert!(check_reply("{}\n").is_ok());
    match check_reply("") {
        Err(Error::Runtime(m)) => assert_eq!(m, "empty control response"),
        other => panic!("unexpected {other:?}"),
    }
}
