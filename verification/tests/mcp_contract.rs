use kernel_builder::mcp::{error_text, tree_removed_text};
use kernel_builder::mcp::{
    job_event_text, log_text, status_text, CancelBuildInput, GetArtifactManifestInput,
    GetBuildStatusInput, ListArtifactsInput, ScheduleKernelBuildInput, TailBuildLogInput,
};
use kernel_builder::model::JobId;

#[test]
fn bounded_log_input_defaults_are_explicit() {
    let input = TailBuildLogInput {
        job_id: "job_018f03214f1870008000000000000000".into(),
        max_bytes: Some(4096),
    };

    assert_eq!(input.max_bytes, Some(4096));
}

#[test]
fn status_and_cancel_inputs_use_job_id_strings() {
    let status = GetBuildStatusInput {
        job_id: "job_018f03214f1870008000000000000000".into(),
    };
    let cancel = CancelBuildInput {
        job_id: status.job_id.clone(),
    };

    assert_eq!(cancel.job_id, status.job_id);
}

#[test]
fn artifact_inputs_use_job_id_strings() {
    let list = ListArtifactsInput {
        job_id: "job_018f03214f1870008000000000000000".into(),
    };
    let manifest = GetArtifactManifestInput {
        job_id: list.job_id.clone(),
    };

    assert_eq!(manifest.job_id, list.job_id);
}

#[test]
fn tail_input_defaults_to_four_kib() {
    let input = TailBuildLogInput { job_id: "job_x".into(), max_bytes: None };
    assert_eq!(input.max_bytes_or_default(), 4096);
    let input = TailBuildLogInput { job_id: "job_x".into(), max_bytes: Some(10) };
    assert_eq!(input.max_bytes_or_default(), 10);
}

#[test]
fn schedule_input_becomes_request_with_default_priority() {
    let input = ScheduleKernelBuildInput {
        source_root: None,
        source_url: Some("https://github.com/example/linux.git".into()),
        tree_name: None,
        git_ref: Some("custom/branch".into()),
        profile: None,
        arch: "arm64".into(),
        config_target: "defconfig".into(),
        config_fragments: vec![],
        make_targets: vec!["Image".into()],
        env: vec![],
        timeout_secs: None,
        priority: None,
        artifact_patterns: vec!["arch/arm64/boot/Image".into()],
    };
    let request = input.into_request();
    assert_eq!(request.priority, 0);
    assert_eq!(request.source_url.as_deref(), Some("https://github.com/example/linux.git"));
    assert_eq!(request.git_ref.as_deref(), Some("custom/branch"));
    assert_eq!(request.make_targets, vec!["Image"]);
}

#[test]
fn response_texts() {
    assert_eq!(status_text("podman", 2, 1), "runtime=podman queued_jobs=2 active_jobs=1");
    assert_eq!(
        status_text("auto", 18446744073709551615, 0),
        "runtime=auto queued_jobs=18446744073709551615 active_jobs=0"
    );
    assert_eq!(log_text("abc".into(), true), "abc\n[truncated]");
    assert_eq!(log_text("abc".into(), false), "abc");
    let id = JobId::from_u128(1);
    assert_eq!(job_event_text("scheduled", &id), "scheduled job_00000000000000000000000000000001");
}

#[test]
fn error_and_tree_texts() {
    assert_eq!(error_text("boom"), "error: boom");
    assert_eq!(tree_removed_text("linux-next", true), "removed linux-next");
    assert_eq!(tree_removed_text("linux-next", false), "no tree named linux-next");
}
