use kernel_builder::executor::{artifact_dest, artifact_records};
use kernel_builder::executor::shell_quote;
use kernel_builder::config::Config;
use kernel_builder::db::new_job_record;
use kernel_builder::error::Error;
use kernel_builder::executor::{
    artifact_record, git_ref_candidates, job_log_path, runtime_command_for, source_location,
};
use kernel_builder::model::{BuildRequest, JobId};

fn request() -> BuildRequest {
    BuildRequest {
        source_root: Some("/allowed/linux".into()),
        source_url: None,
        tree_name: None,
        git_ref: Some("topic/build-me".into()),
        profile: None,
        arch: "arm64".into(),
        config_target: "defconfig".into(),
        config_fragments: vec!["fragments/base.config".into()],
        make_targets: vec!["-j10".into(), "Image".into()],
        env: vec![],
        timeout_secs: None,
        priority: 0,
        artifact_patterns: vec!["arch/arm64/boot/Image".into()],
    }
}

fn command_for(request: BuildRequest) -> Result<kernel_builder::runtime::RuntimeCommand, Error> {
    let mut config = Config::for_test_with_allowlist(vec!["/allowed".into()]);
    config.storage.workspace_root = "/w".into();
    config.storage.log_root = "/logs".into();
    let job = new_job_record(JobId::from_u128(1), request, 0);
    runtime_command_for(&config, &job)
}

#[test]
fn build_command_uses_job_workspace_and_script() {
    let command = command_for(request()).unwrap();
    assert_eq!(command.program, "sh");
    assert_eq!(command.source_root, "/w/job_00000000000000000000000000000001/source");
    assert_eq!(command.output_root, "/w/job_00000000000000000000000000000001/output");
    assert_eq!(command.log_path, "/logs/job_00000000000000000000000000000001.log");
    assert_eq!(command.args[0], "-c");
    let script = &command.args[1];
    assert_eq!(
        script,
        "set -eu\n\
         make -C \"$KBS_SOURCE_DIR\" O=\"$KBS_OUTPUT_DIR\" ARCH='arm64' 'defconfig'\n\
         \"$KBS_SOURCE_DIR\"/scripts/kconfig/merge_config.sh -m -O \"$KBS_OUTPUT_DIR\" \"$KBS_OUTPUT_DIR/.config\" \"$KBS_SOURCE_DIR\"/'fragments/base.config'\n\
         make -C \"$KBS_SOURCE_DIR\" O=\"$KBS_OUTPUT_DIR\" ARCH='arm64' 'olddefconfig'\n\
         make -C \"$KBS_SOURCE_DIR\" O=\"$KBS_OUTPUT_DIR\" ARCH='arm64' '-j10' 'Image'"
    );
}

#[test]
fn script_without_fragments_has_no_merge_step() {
    let mut r = request();
    r.config_fragments = vec![];
    r.arch = "it's".into();
    let command = command_for(r).unwrap();
    assert_eq!(
        command.args[1],
        "set -eu\n\
         make -C \"$KBS_SOURCE_DIR\" O=\"$KBS_OUTPUT_DIR\" ARCH='it'\\''s' 'defconfig'\n\
         make -C \"$KBS_SOURCE_DIR\" O=\"$KBS_OUTPUT_DIR\" ARCH='it'\\''s' '-j10' 'Image'"
    );
}

fn config_error(result: Result<kernel_builder::runtime::RuntimeCommand, Error>) -> String {
    match result {
        Err(Error::Config(m)) => m,
        other => panic!("unexpected {other:?}"),
    }
}

#[test]
fn fragments_must_stay_inside_the_source_root() {
    let mut r = request();
    r.config_fragments = vec!["/allowed/linux/kernel/configs/x.config".into()];
    let script = command_for(r).unwrap().args[1].clone();
    assert!(script.contains("\"$KBS_SOURCE_DIR\"/'kernel/configs/x.config'"));

    let mut r = request();
    r.config_fragments = vec!["/etc/x.config".into()];
    assert_eq!(
        config_error(command_for(r)),
        "config fragment /etc/x.config is outside source root /allowed/linux"
    );

    for bad in ["..", "../x.config", "a/../../x.config"] {
        let mut r = request();
        r.config_fragments = vec!["ok.config".into(), bad.into()];
        assert_eq!(
            config_error(command_for(r)),
            format!("config fragment {bad} must stay inside source root")
        );
    }

    let mut r = request();
    r.source_root = None;
    r.source_url = Some("https://github.com/spidy/linux.git".into());
    r.config_fragments = vec!["/abs.config".into()];
    assert_eq!(
        config_error(command_for(r)),
        "absolute config fragments require a local source_root"
    );
}

#[test]
fn source_location_needs_one_resolved_source() {
    assert_eq!(source_location(&request()).unwrap(), "/allowed/linux");
    let mut r = request();
    r.source_url = Some("https://x".into());
    assert!(matches!(source_location(&r), Err(Error::Config(_))));
    r.source_root = None;
    assert_eq!(source_location(&r).unwrap(), "https://x");
    r.source_url = None;
    match source_location(&r) {
        Err(Error::Config(m)) => assert_eq!(m, "request has no resolved source"),
        other => panic!("unexpected {other:?}"),
    }
}

#[test]
fn git_refs_are_tried_as_branch_and_tag_names() {
    assert_eq!(
        git_ref_candidates("topic/build-me"),
        vec![
            "topic/build-me",
            "refs/remotes/origin/topic/build-me",
            "refs/heads/topic/build-me",
            "refs/tags/topic/build-me"
        ]
    );
    assert_eq!(git_ref_candidates("refs/tags/v6.6"), vec!["refs/tags/v6.6"]);
}

#[test]
fn artifact_record_hashes_contents() {
    let record = artifact_record(JobId::from_u128(7), "/a/vmlinux".into(), b"kernel");
    assert_eq!(record.bytes, 6);
    assert_eq!(record.sha256.len(), 64);
    assert_eq!(
        record.sha256,
        "6923dd1bc0460082c5d55a831908c24a282860b7f1cd6c2b79cf1bc8857c639c"
    );
    assert_eq!(record.kind, "kernel-output");
    assert_eq!(record.path, "/a/vmlinux");
    let empty = artifact_record(JobId::from_u128(7), "/a/empty".into(), b"");
    assert_eq!(
        empty.sha256,
        "e3b0c44298fc1c149afbf4c8996fb92427ae41e4649b934ca495991b7852b855"
    );
}

#[test]
fn job_logs_live_under_the_log_root() {
    let mut config = Config::for_test_with_allowlist(vec!["/allowed".into()]);
    config.storage.log_root = "/var/log/kbs/".into();
    assert_eq!(
        job_log_path(&config, &JobId::from_u128(255)),
        "/var/log/kbs/job_000000000000000000000000000000ff.log"
    );
}

#[test]
fn artifacts_keep_pattern_order_and_skip_missing_files() {
    let mut config = Config::for_test_with_allowlist(vec!["/allowed".into()]);
    config.storage.artifact_root = "/art".into();
    let id = JobId::from_u128(3);
    let dest = artifact_dest(&config, &id, "Image");
    assert_eq!(dest, "/art/job_00000000000000000000000000000003/Image");
    let found = vec![
        Some((dest.clone(), b"kernel".to_vec())),
        None,
        Some(("/art/x/vmlinux".to_string(), Vec::new())),
    ];
    let records = artifact_records(id, &found);
    assert_eq!(records.len(), 2);
    assert_eq!(records[0].path, dest);
    assert_eq!(records[0].bytes, 6);
    assert_eq!(
        records[0].sha256,
        "6923dd1bc0460082c5d55a831908c24a282860b7f1cd6c2b79cf1bc8857c639c"
    );
    assert_eq!(records[1].path, "/art/x/vmlinux");
    assert_eq!(records[1].bytes, 0);
    assert_eq!(
        records[1].sha256,
        "e3b0c44298fc1c149afbf4c8996fb92427ae41e4649b934ca495991b7852b855"
    );
    assert!(records.iter().all(|r| r.job_id == id && r.kind == "kernel-output"));
    assert!(records.iter().all(|r| r.sha256.len() == 64));
}

#[test]
fn shell_quote_escapes_single_quotes() {
    assert_eq!(shell_quote("it's"), "'it'\\''s'");
    assert_eq!(shell_quote(""), "''");
    assert_eq!(shell_quote("$(rm -rf /)"), "'$(rm -rf /)'");
}
