use kernel_builder::config::{Config, RuntimePreference};
use kernel_builder::error::Error;
use kernel_builder::model::{BuildRequest, EnvVar, TreeRegistration};
use kernel_builder::paths::lexical_child_of;
use kernel_builder::policy::Policy;

#[test]
fn default_config_rejects_empty_source_allowlist() {
    let config = Config::for_test_with_allowlist(vec![]);
    let err = config.validate().unwrap_err();
    assert!(err.to_string().contains("source allowlist"));
}

#[test]
fn valid_test_config_keeps_host_native_disabled() {
    let config = Config::for_test_with_allowlist(vec!["/src".into()]);

    config.validate().unwrap();

    assert_eq!(config.runtime.preference, RuntimePreference::Auto);
    assert!(!config.security.enable_host_native);
}

fn policy_message(result: Result<(), Error>) -> String {
    match result {
        Err(Error::Policy(message)) => message,
        other => panic!("expected a policy error, got {other:?}"),
    }
}

fn config_message(result: Result<(), Error>) -> String {
    match result {
        Err(Error::Config(message)) => message,
        other => panic!("expected a configuration error, got {other:?}"),
    }
}

#[test]
fn config_rules_are_checked_in_order() {
    let mut config = Config::for_test_with_allowlist(vec!["/src".into()]);
    config.scheduler.concurrency = 0;
    assert_eq!(config_message(config.validate()), "concurrency must be at least 1");

    let mut config = Config::for_test_with_allowlist(vec!["/src".into()]);
    config.runtime.preference = RuntimePreference::HostNative;
    assert_eq!(
        config_message(config.validate()),
        "host-native runtime requires enable_host_native=true"
    );
    config.security.enable_host_native = true;
    config.validate().unwrap();

    let mut config = Config::for_test_with_allowlist(vec!["/src".into()]);
    config.security.max_log_read_bytes = 0;
    assert_eq!(config_message(config.validate()), "max_log_read_bytes must be positive");
}

#[test]
fn test_config_defaults() {
    let config = Config::for_test_with_allowlist(vec!["/src".into()]);
    assert_eq!(config.scheduler.concurrency, 1);
    assert_eq!(config.scheduler.default_timeout_secs, 3600);
    assert_eq!(config.security.max_log_read_bytes, 65536);
    assert_eq!(
        config.security.denied_env,
        vec!["LD_PRELOAD", "LD_LIBRARY_PATH", "SSH_AUTH_SOCK", "GIT_ASKPASS"]
    );
    assert_eq!(config.mcp.control_socket, "/tmp/kernel-builder/kbs.sock");
    assert!(config.security.clone_url_allowlist.is_empty());
    assert!(!config.runtime.network_enabled);
}

fn request(source_root: Option<&str>, source_url: Option<&str>) -> BuildRequest {
    BuildRequest {
        source_root: source_root.map(String::from),
        source_url: source_url.map(String::from),
        tree_name: None,
        git_ref: None,
        profile: None,
        arch: "x86_64".into(),
        config_target: "defconfig".into(),
        config_fragments: vec![],
        make_targets: vec!["bzImage".into()],
        env: vec![],
        timeout_secs: None,
        priority: 0,
        artifact_patterns: vec![],
    }
}

fn policy() -> Policy {
    let mut config = Config::for_test_with_allowlist(vec!["/allowed".into()]);
    config.security.clone_url_allowlist = vec!["https://github.com/spidy/".into()];
    Policy::new(config.security)
}

#[test]
fn lexical_child_compares_whole_components() {
    let roots = vec!["/allowed".to_string()];
    assert!(lexical_child_of("/allowed/linux", &roots));
    assert!(lexical_child_of("/allowed", &roots));
    assert!(!lexical_child_of("/allowedness/linux", &roots));
    assert!(!lexical_child_of("/other", &roots));
    assert!(!lexical_child_of("/allowed/linux", &[]));
}

#[test]
fn request_inside_allowlist_is_accepted() {
    policy().validate_request(&request(Some("/allowed/linux"), None)).unwrap();
    policy()
        .validate_request(&request(None, Some("https://github.com/spidy/linux.git")))
        .unwrap();
}

#[test]
fn request_sources_are_checked() {
    let p = policy();
    assert_eq!(
        policy_message(p.validate_request(&request(Some("/elsewhere/linux"), None))),
        "source root /elsewhere/linux is outside allowlist"
    );
    assert_eq!(
        policy_message(p.validate_request(&request(Some("/allowed/linux"), Some("https://github.com/spidy/x")))),
        "request must not include both source_root and source_url"
    );
    assert_eq!(
        policy_message(p.validate_request(&request(None, None))),
        "request must include source_root, source_url, or tree_name"
    );
    assert_eq!(
        policy_message(p.validate_request(&request(None, Some("https://example.com/linux.git")))),
        "clone URL https://example.com/linux.git is outside allowlist"
    );
    assert_eq!(
        policy_message(p.validate_request(&request(None, Some(" https://github.com/spidy/x")))),
        "clone URL must be non-empty"
    );
    assert_eq!(
        policy_message(p.validate_request(&request(None, Some("https://github.com/spidy/x\n")))),
        "clone URL must be non-empty"
    );
    assert_eq!(
        policy_message(p.validate_request(&request(None, Some("")))),
        "clone URL must be non-empty"
    );
}

#[test]
fn denied_environment_and_missing_targets_are_refused() {
    let p = policy();
    let mut r = request(Some("/allowed/linux"), None);
    r.env = vec![
        EnvVar { key: "CC".into(), value: "clang".into() },
        EnvVar { key: "LD_PRELOAD".into(), value: "/evil.so".into() },
        EnvVar { key: "GIT_ASKPASS".into(), value: "x".into() },
    ];
    assert_eq!(
        policy_message(p.validate_request(&r)),
        "denied environment variable LD_PRELOAD"
    );
    let mut r = request(Some("/allowed/linux"), None);
    r.make_targets = vec![];
    assert_eq!(
        policy_message(p.validate_request(&r)),
        "at least one make target is required"
    );
}

fn tree(name: &str, source_root: Option<&str>, source_url: Option<&str>) -> TreeRegistration {
    TreeRegistration {
        name: name.into(),
        source_root: source_root.map(String::from),
        source_url: source_url.map(String::from),
        default_ref: Some("main".into()),
    }
}

#[test]
fn tree_registration_rules() {
    let p = policy();
    p.validate_tree_registration(&tree("linux-next", None, Some("https://github.com/spidy/linux-next.git")))
        .unwrap();
    p.validate_tree_registration(&tree("stable/6.6_x", Some("/allowed/stable"), None)).unwrap();
    assert_eq!(
        policy_message(p.validate_tree_registration(&tree("", Some("/allowed/x"), None))),
        "tree name must be between 1 and 128 bytes"
    );
    let long = "a".repeat(129);
    assert_eq!(
        policy_message(p.validate_tree_registration(&tree(&long, Some("/allowed/x"), None))),
        "tree name must be between 1 and 128 bytes"
    );
    p.validate_tree_registration(&tree(&"a".repeat(128), Some("/allowed/x"), None)).unwrap();
    assert_eq!(
        policy_message(p.validate_tree_registration(&tree("bad name", Some("/allowed/x"), None))),
        "tree name may only contain letters, digits, '.', '_', '-', and '/'"
    );
    assert_eq!(
        policy_message(p.validate_tree_registration(&tree("linux", None, None))),
        "tree must include source_root or source_url"
    );
    assert_eq!(
        policy_message(p.validate_tree_registration(&tree("linux", Some("/allowed/x"), Some("https://github.com/spidy/x")))),
        "tree must not include both source_root and source_url"
    );
}
