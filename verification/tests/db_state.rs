use kernel_builder::db::job_from_row;
use kernel_builder::model::FailureCategory;
use kernel_builder::model::FailureInfo;
use kernel_builder::audit::AuditEvent;
use kernel_builder::db::{new_job_record, parse_state, parse_timestamp, state_name, tree_from_row};
use kernel_builder::db::{change_state, registration_row, timestamp_text};
use kernel_builder::model::TreeRegistration;
use kernel_builder::error::Error;
use kernel_builder::model::{BuildRequest, JobId, JobState};

#[test]
fn terminal_jobs_do_not_transition_back_to_running() {
    let result = JobState::Succeeded.transition_to(JobState::Running);
    assert!(result.is_err());
}

#[test]
fn generated_job_ids_are_prefixed_and_parseable() {
    let id = JobId::new();
    let encoded = id.to_string();
    assert!(encoded.starts_with("job_"));
    assert_eq!(encoded.parse::<JobId>().unwrap(), id);
}

#[test]
fn transitions_from_active_states_are_accepted() {
    assert_eq!(JobState::Queued.transition_to(JobState::Preparing).unwrap(), JobState::Preparing);
    assert_eq!(JobState::Running.transition_to(JobState::Canceling).unwrap(), JobState::Canceling);
    match JobState::Failed.transition_to(JobState::Queued) {
        Err(Error::InvalidState(message)) => {
            assert_eq!(message, "cannot transition from Failed to Queued")
        }
        other => panic!("unexpected {other:?}"),
    }
    for state in [JobState::Succeeded, JobState::Canceled, JobState::Failed, JobState::TimedOut] {
        assert!(state.is_terminal());
    }
    for state in [JobState::Queued, JobState::Preparing, JobState::Running, JobState::Collecting, JobState::Canceling] {
        assert!(!state.is_terminal());
    }
}

#[test]
fn job_id_text_form() {
    let id = JobId::from_u128(0x018f03214f1870008000000000000000);
    assert_eq!(id.to_string(), "job_018f03214f1870008000000000000000");
    let parsed: JobId = "job_018f03214f1870008000000000000000".parse().unwrap();
    assert_eq!(parsed, id);
    let hyphenated = JobId::parse("job_018f0321-4f18-7000-8000-000000000000").unwrap();
    assert_eq!(hyphenated, id);
    let upper = JobId::parse("job_018F03214F1870008000000000000000").unwrap();
    assert_eq!(upper, id);
    assert_eq!(JobId::from_u128(0).to_string(), "job_00000000000000000000000000000000");
    assert_eq!(JobId::from_u128(u128::MAX).to_string(), "job_ffffffffffffffffffffffffffffffff");
}

#[test]
fn malformed_job_ids_are_refused() {
    match JobId::parse("018f03214f1870008000000000000000") {
        Err(Error::Config(message)) => assert_eq!(message, "job id must start with job_"),
        other => panic!("unexpected {other:?}"),
    }
    match JobId::parse("job_xyz") {
        Err(Error::Config(message)) => assert!(message.starts_with("invalid job id: ")),
        other => panic!("unexpected {other:?}"),
    }
}

#[test]
fn state_names_round_trip() {
    for state in [
        JobState::Queued,
        JobState::Preparing,
        JobState::Running,
        JobState::Collecting,
        JobState::Succeeded,
        JobState::Canceling,
        JobState::Canceled,
        JobState::Failed,
        JobState::TimedOut,
    ] {
        assert_eq!(parse_state(state_name(state)).unwrap(), state);
    }
    assert_eq!(state_name(JobState::TimedOut), "timed_out");
    match parse_state("paused") {
        Err(Error::Config(message)) => assert_eq!(message, "unknown job state paused"),
        other => panic!("unexpected {other:?}"),
    }
}

#[test]
fn timestamps_are_decimal_nanoseconds_in_range() {
    assert_eq!(parse_timestamp("1546300800000000000").unwrap(), 1_546_300_800_000_000_000);
    assert_eq!(parse_timestamp("-5").unwrap(), -5);
    assert_eq!(parse_timestamp("+7").unwrap(), 7);
    assert!(parse_timestamp("").is_err());
    assert!(parse_timestamp("12a").is_err());
    assert!(parse_timestamp(" 1").is_err());
    assert!(parse_timestamp("99999999999999999999999999999").is_err());
}

#[test]
fn tree_rows_become_records() {
    let tree = tree_from_row((
        "linux-next".into(),
        None,
        Some("https://github.com/spidy/linux-next.git".into()),
        Some("main".into()),
        "10".into(),
        "20".into(),
    ))
    .unwrap();
    assert_eq!(tree.name, "linux-next");
    assert_eq!(tree.source_url.as_deref(), Some("https://github.com/spidy/linux-next.git"));
    assert_eq!(tree.created_at, 10);
    assert_eq!(tree.updated_at, 20);
    assert!(tree_from_row(("x".into(), None, None, None, "bad".into(), "20".into())).is_err());
}

#[test]
fn new_jobs_are_queued() {
    let id = JobId::from_u128(42);
    let request = BuildRequest {
        source_root: Some("/allowed/linux".into()),
        source_url: None,
        tree_name: None,
        git_ref: None,
        profile: None,
        arch: "x86_64".into(),
        config_target: "defconfig".into(),
        config_fragments: vec![],
        make_targets: vec!["bzImage".into()],
        env: vec![],
        timeout_secs: None,
        priority: 0,
        artifact_patterns: vec![],
    };
    let job = new_job_record(id, request, 99);
    assert_eq!(job.id, id);
    assert_eq!(job.state, JobState::Queued);
    assert_eq!(job.created_at, 99);
    assert_eq!(job.updated_at, 99);
    assert!(job.failure.is_none());
}

#[test]
fn audit_events_are_stamped_with_the_current_time() {
    let event = AuditEvent::new("cli".into(), "cancel".into(), "job_1".into());
    assert_eq!(event.actor, "cli");
    assert_eq!(event.action, "cancel");
    assert_eq!(event.target, "job_1");
    // 2020-01-01T00:00:00Z in nanoseconds: the clock is read, not left at zero.
    assert!(event.created_at > 1_577_836_800_000_000_000);
}

#[test]
fn new_job_ids_are_version_7_uuids() {
    for _ in 0..8 {
        let value = JobId::new().as_u128();
        assert_eq!((value >> 76) & 0xf, 7);
        assert_eq!((value >> 62) & 0x3, 2);
    }
}

#[test]
fn job_rows_become_records_in_field_order() {
    let request = || BuildRequest {
        source_root: Some("/allowed/linux".into()),
        source_url: None,
        tree_name: None,
        git_ref: None,
        profile: None,
        arch: "x86_64".into(),
        config_target: "defconfig".into(),
        config_fragments: vec![],
        make_targets: vec!["bzImage".into()],
        env: vec![],
        timeout_secs: None,
        priority: 0,
        artifact_patterns: vec![],
    };
    let failure = FailureInfo {
        category: FailureCategory::BuildFailed,
        message: "make failed".into(),
        phase: "build".into(),
        exit_code: Some(2),
        retryable: false,
    };
    let job = job_from_row(
        "job_00000000000000000000000000000009",
        Ok(request()),
        "failed",
        "5",
        "6",
        Ok(Some(failure)),
    )
    .unwrap();
    assert_eq!(job.id, JobId::from_u128(9));
    assert_eq!(job.state, JobState::Failed);
    assert_eq!((job.created_at, job.updated_at), (5, 6));
    assert_eq!(job.failure.unwrap().exit_code, Some(2));

    // The identifier is read first, then the request.
    match job_from_row("bad", Err(Error::Serialization("x".into())), "queued", "1", "1", Ok(None)) {
        Err(Error::Config(m)) => assert_eq!(m, "job id must start with job_"),
        other => panic!("unexpected {other:?}"),
    }
    match job_from_row(
        "job_00000000000000000000000000000009",
        Err(Error::Serialization("x".into())),
        "paused",
        "1",
        "1",
        Ok(None),
    ) {
        Err(Error::Serialization(m)) => assert_eq!(m, "x"),
        other => panic!("unexpected {other:?}"),
    }
    match job_from_row("job_00000000000000000000000000000009", Ok(request()), "paused", "1", "1", Ok(None)) {
        Err(Error::Config(m)) => assert_eq!(m, "unknown job state paused"),
        other => panic!("unexpected {other:?}"),
    }
    assert!(job_from_row("job_00000000000000000000000000000009", Ok(request()), "queued", "1", "x", Ok(None)).is_err());
}

#[test]
fn default_job_ids_are_version_7_uuids() {
    let value = JobId::default().as_u128();
    assert_eq!((value >> 76) & 0xf, 7);
    assert_eq!((value >> 62) & 0x3, 2);
}

#[test]
fn audit_times_are_representable_dates() {
    let event = AuditEvent::new("a".into(), "b".into(), "c".into());
    assert!(parse_timestamp(&event.created_at.to_string()).is_ok());
}

fn queued_job() -> kernel_builder::model::JobRecord {
    let request = BuildRequest {
        source_root: Some("/allowed/linux".into()),
        source_url: None,
        tree_name: None,
        git_ref: Some("v6.8".into()),
        profile: None,
        arch: "arm64".into(),
        config_target: "defconfig".into(),
        config_fragments: vec![],
        make_targets: vec!["Image".into()],
        env: vec![],
        timeout_secs: Some(60),
        priority: 3,
        artifact_patterns: vec!["Image".into()],
    };
    new_job_record(JobId::from_u128(5), request, 100)
}

#[test]
fn timestamps_are_written_in_decimal() {
    assert_eq!(timestamp_text(0), "0");
    assert_eq!(timestamp_text(7), "7");
    assert_eq!(timestamp_text(1_700_000_000_123_456_789), "1700000000123456789");
    assert_eq!(timestamp_text(-42), "-42");
    assert_eq!(timestamp_text(i128::MAX), i128::MAX.to_string());
    assert_eq!(timestamp_text(i128::MIN), i128::MIN.to_string());
}

#[test]
fn written_timestamps_read_back() {
    for nanos in [0i128, 1, -1, 1_700_000_000_000_000_000, -377_705_116_800_000_000_000, 253_402_300_799_999_999_999] {
        assert_eq!(parse_timestamp(&timestamp_text(nanos)).unwrap(), nanos);
    }
}

#[test]
fn canceling_a_live_job_updates_it_and_logs_the_event() {
    let before = queued_job();
    let mut job = before.clone();
    let mut events = vec!["queued".to_string()];
    change_state(&mut job, &mut events, JobState::Canceling, 250).unwrap();
    assert_eq!(job.state, JobState::Canceling);
    assert_eq!(job.updated_at, 250);
    assert_eq!(job.created_at, 100);
    assert_eq!(job.id, before.id);
    assert_eq!(job.request.git_ref.as_deref(), Some("v6.8"));
    assert_eq!(job.request.priority, 3);
    assert!(job.failure.is_none());
    assert_eq!(events, vec!["queued".to_string(), "canceling".to_string()]);
}

#[test]
fn terminal_jobs_keep_their_state_and_events() {
    let mut job = queued_job();
    job.state = JobState::Succeeded;
    let mut events = vec!["queued".to_string(), "succeeded".to_string()];
    match change_state(&mut job, &mut events, JobState::Canceling, 250) {
        Err(Error::InvalidState(message)) => {
            assert_eq!(message, "cannot transition from Succeeded to Canceling")
        }
        other => panic!("expected an invalid state error, got {other:?}"),
    }
    assert_eq!(job.state, JobState::Succeeded);
    assert_eq!(job.updated_at, 100);
    assert_eq!(events, vec!["queued".to_string(), "succeeded".to_string()]);
}

#[test]
fn registered_trees_read_back_from_their_row() {
    let registration = TreeRegistration {
        name: "stable".into(),
        source_root: Some("/allowed/linux".into()),
        source_url: None,
        default_ref: Some("v6.8".into()),
    };
    let now = 1_700_000_000_000_000_001;
    let row = registration_row(registration, now);
    assert_eq!(row.4, "1700000000000000001");
    assert_eq!(row.5, "1700000000000000001");
    let tree = tree_from_row(row).unwrap();
    assert_eq!(tree.name, "stable");
    assert_eq!(tree.source_root.as_deref(), Some("/allowed/linux"));
    assert!(tree.source_url.is_none());
    assert_eq!(tree.default_ref.as_deref(), Some("v6.8"));
    assert_eq!(tree.created_at, now);
    assert_eq!(tree.updated_at, now);
}
