use andromeda_client::http::{http_client, USER_AGENT};
use andromeda_client::download::integrity::{check_digest, check_size, Digester};
use andromeda_client::download::manager::{
    finish_batch, DownloadConfig, DownloadManager, DownloadSummary,
};
use andromeda_client::download::paths::{
    existing_file_check, is_windows_device_name, parent_step, root_check, validate_relative_path, EntryKind, ParentStep,
};
use andromeda_client::download::job::{job_step, JobAction, JobEvent, JobStage};
use andromeda_client::download::plan::{
    total_expected_bytes, validate_plan, Checksum, DownloadJob, DownloadPlan,
};
use andromeda_client::download::retry::{after_failed_attempt, backoff, RetryDecision};
use andromeda_client::download::transfer::{
    accept_response, range_request, content_range_starts_at, rebase_logical, response_validator, resume_confirmed, resume_offset,
    retry_after_secs, side_file_name, LogicalAdjustment, ResumeRecord, PART_SUFFIX,
};
use andromeda_client::download::{DownloadError, IoFailureKind};

fn invalid_plan_message(result: Result<(), DownloadError>) -> String {
    match result {
        Err(DownloadError::InvalidPlan(message)) => message,
        other => panic!("expected an invalid plan, got {other:?}"),
    }
}

#[test]
fn rejects_unsafe_paths() {
    for path in ["../escape", "/absolute", "safe/../escape", "CON", "a/NUL.txt", "trailing. "] {
        assert!(validate_relative_path(path).is_err(), "{path}");
    }
    assert!(validate_relative_path("libraries/org/example.jar").is_ok());
}

#[test]
fn validates_checksums() {
    assert!(Checksum::Sha1("a".repeat(40)).validate().is_ok());
    assert!(Checksum::Sha256("F".repeat(64)).validate().is_ok());
    assert!(Checksum::Sha1("x".repeat(40)).validate().is_err());
}

#[test]
fn classifies_retries() {
    assert!(DownloadError::Http {
        status: reqwest::StatusCode::TOO_MANY_REQUESTS.as_u16(),
        retry_after: None
    }
    .retryable());
    assert!(!DownloadError::Http { status: reqwest::StatusCode::BAD_REQUEST.as_u16(), retry_after: None }
        .retryable());
    assert!(!DownloadError::Integrity { path: String::new(), reason: String::new() }.retryable());
}

#[test]
fn path_messages_name_the_problem() {
    assert_eq!(invalid_plan_message(validate_relative_path("")), "destination path is empty or too long");
    assert_eq!(invalid_plan_message(validate_relative_path("a/../b")), "unsafe destination: a/../b");
    assert_eq!(invalid_plan_message(validate_relative_path("a/com3.log")), "unsafe path component: com3.log");
    assert_eq!(invalid_plan_message(validate_relative_path("./a")), "unsafe destination: ./a");
    assert!(validate_relative_path(&"x".repeat(1025)).is_err());
    assert!(validate_relative_path(&"x".repeat(255)).is_ok());
    assert!(validate_relative_path(&"x".repeat(256)).is_err());
    assert!(validate_relative_path("a/./b//c/").is_ok());
    assert!(validate_relative_path("a:b").is_err());
    assert!(validate_relative_path("COM10").is_ok());
    assert!(validate_relative_path("LPT0").is_ok());
}

#[test]
fn device_names_ignore_case_and_extension() {
    let chars = |s: &str| s.chars().collect::<Vec<char>>();
    assert!(is_windows_device_name(&chars("aux.tar.gz")));
    assert!(is_windows_device_name(&chars("lpt9")));
    assert!(!is_windows_device_name(&chars("console")));
    assert!(!is_windows_device_name(&chars("COM")));
}

fn job(id: &str, url: &str, destination: &str) -> DownloadJob {
    DownloadJob {
        id: id.into(),
        url: url.into(),
        destination: destination.into(),
        expected_size: Some(3),
        checksum: None,
    }
}

#[test]
fn plans_reject_duplicates_and_insecure_urls() {
    let good = DownloadPlan {
        jobs: vec![
            job("a", "https://example.com/a", "libs/a.jar"),
            job("b", "http://127.0.0.1:8080/b", "libs/b.jar"),
            job("c", "http://localhost/c", "libs/c.jar"),
        ],
    };
    assert!(validate_plan(&good).is_ok());
    assert_eq!(total_expected_bytes(&good), Some(9));

    let duplicate_id = DownloadPlan {
        jobs: vec![job("a", "https://e.com/a", "a"), job("a", "https://e.com/b", "b")],
    };
    assert_eq!(invalid_plan_message(validate_plan(&duplicate_id)), "job IDs must be non-empty and unique");

    let empty_id = DownloadPlan { jobs: vec![job("", "https://e.com/a", "a")] };
    assert_eq!(invalid_plan_message(validate_plan(&empty_id)), "job IDs must be non-empty and unique");

    let folded = DownloadPlan {
        jobs: vec![job("a", "https://e.com/a", "Libs/A.jar"), job("b", "https://e.com/b", "libs/a.JAR")],
    };
    assert_eq!(invalid_plan_message(validate_plan(&folded)), "duplicate destination: libs/a.JAR");

    let insecure = DownloadPlan { jobs: vec![job("a", "http://example.com/a", "a")] };
    assert_eq!(invalid_plan_message(validate_plan(&insecure)), "URL must use HTTPS: http://example.com/a");

    let public_ip = DownloadPlan { jobs: vec![job("a", "http://10.0.0.1/a", "a")] };
    assert!(validate_plan(&public_ip).is_err());

    let mut bad_checksum = job("a", "https://e.com/a", "a");
    bad_checksum.checksum = Some(Checksum::Sha256("abc".into()));
    assert_eq!(
        invalid_plan_message(validate_plan(&DownloadPlan { jobs: vec![bad_checksum] })),
        "invalid SHA-256 checksum"
    );
}

#[test]
fn total_bytes_needs_every_size() {
    let mut unknown = job("b", "https://e.com/b", "b");
    unknown.expected_size = None;
    let plan = DownloadPlan { jobs: vec![job("a", "https://e.com/a", "a"), unknown] };
    assert_eq!(total_expected_bytes(&plan), None);
    let mut huge = job("b", "https://e.com/b", "b");
    huge.expected_size = Some(u64::MAX);
    let overflow = DownloadPlan { jobs: vec![job("a", "https://e.com/a", "a"), huge] };
    assert_eq!(total_expected_bytes(&overflow), None);
    assert_eq!(total_expected_bytes(&DownloadPlan::default()), Some(0));
}

#[test]
fn backoff_doubles_up_to_a_cap() {
    assert_eq!(backoff(250, 1), 250);
    assert_eq!(backoff(250, 2), 500);
    assert_eq!(backoff(250, 4), 2000);
    assert_eq!(backoff(1, 11), 1024);
    assert_eq!(backoff(1, 50), 1024);
    assert_eq!(backoff(u64::MAX, 3), u64::MAX);
}

#[test]
fn retry_decisions_follow_the_policy() {
    let transient = DownloadError::Http { status: 503, retry_after: None };
    assert_eq!(
        after_failed_attempt(&transient, 1, 4, 250),
        RetryDecision::Retry { next_attempt: 2, delay_ms: 250 }
    );
    assert_eq!(after_failed_attempt(&transient, 4, 4, 250), RetryDecision::GiveUp);
    let asked = DownloadError::Http { status: 429, retry_after: Some(7) };
    assert_eq!(
        after_failed_attempt(&asked, 2, 4, 250),
        RetryDecision::Retry { next_attempt: 3, delay_ms: 7000 }
    );
    let io = DownloadError::Io {
        path: "x".into(),
        kind: IoFailureKind::TimedOut,
        source: std::io::Error::new(std::io::ErrorKind::TimedOut, "slow"),
    };
    assert!(io.retryable());
    assert_eq!(after_failed_attempt(&DownloadError::Cancelled, 1, 4, 250), RetryDecision::GiveUp);
    assert!(DownloadError::Timeout.retryable());
    assert!(DownloadError::Network("reset".into()).retryable());
}

#[test]
fn resume_needs_a_matching_validator_and_confirmed_range() {
    let record = Some(ResumeRecord { url: "https://e.com/a".into(), validator: "\"stable\"".into() });
    assert_eq!(resume_offset(6, &record, "https://e.com/a"), 6);
    assert_eq!(resume_offset(6, &record, "https://e.com/b"), 0);
    assert_eq!(resume_offset(0, &record, "https://e.com/a"), 0);
    let no_validator = Some(ResumeRecord { url: "https://e.com/a".into(), validator: String::new() });
    assert_eq!(resume_offset(6, &no_validator, "https://e.com/a"), 0);
    assert_eq!(resume_offset(6, &None, "https://e.com/a"), 0);

    assert!(content_range_starts_at(Some("bytes 6-10/11"), 6));
    assert!(content_range_starts_at(Some("bytes +6-10/11"), 6));
    assert!(!content_range_starts_at(Some("bytes 7-10/11"), 6));
    assert!(!content_range_starts_at(Some("6-10/11"), 6));
    assert!(!content_range_starts_at(None, 6));
    assert!(resume_confirmed(6, 206, Some("bytes 6-10/11")));
    assert!(!resume_confirmed(6, 200, Some("bytes 6-10/11")));
    assert!(!resume_confirmed(0, 206, Some("bytes 0-10/11")));

    assert_eq!(retry_after_secs(Some("120")), Some(120));
    assert_eq!(retry_after_secs(Some("soon")), None);
    assert_eq!(retry_after_secs(Some("18446744073709551616")), None);
    assert_eq!(retry_after_secs(None), None);

    assert_eq!(
        response_validator(Some(Some("\"e\"".into())), Some(Some("Mon".into()))),
        Some("\"e\"".to_owned())
    );
    assert_eq!(response_validator(Some(None), Some(Some("Mon".into()))), None);
    assert_eq!(response_validator(None, Some(Some("Mon".into()))), Some("Mon".to_owned()));

    assert_eq!(rebase_logical(6, 0), LogicalAdjustment::Add(6));
    assert_eq!(rebase_logical(0, 6), LogicalAdjustment::Subtract(6));
    assert_eq!(rebase_logical(4, 4), LogicalAdjustment::Keep);
    assert_eq!(side_file_name("artifact.bin", PART_SUFFIX), ".artifact.bin.andromeda.part");
}

#[test]
fn integrity_checks_size_and_digest() {
    let body = b"verified artifact";
    let expected = hex::encode(<sha2::Sha256 as sha2::Digest>::digest(body));
    let checksum = Checksum::Sha256(expected.to_uppercase());
    let mut digester = Digester::for_checksum(&checksum);
    digester.update(&body[..5]);
    digester.update(&body[5..]);
    let actual = digester.finish_hex();
    assert_eq!(actual, expected);
    assert!(check_digest("a.bin", &checksum, &actual).is_ok());

    let sha1 = Checksum::Sha1("a9993e364706816aba3e25717850c26c9cd0d89d".into());
    let mut digester = Digester::for_checksum(&sha1);
    digester.update(b"abc");
    assert_eq!(digester.finish_hex(), "a9993e364706816aba3e25717850c26c9cd0d89d");

    match check_digest("a.bin", &checksum, "00") {
        Err(DownloadError::Integrity { path, reason }) => {
            assert_eq!(path, "a.bin");
            assert_eq!(reason, format!("checksum mismatch (expected {}, got 00)", expected.to_uppercase()));
        }
        other => panic!("unexpected {other:?}"),
    }
    match check_size("a.bin", 12, Some(17)) {
        Err(DownloadError::Integrity { reason, .. }) => assert_eq!(reason, "expected 17 bytes, received 12"),
        other => panic!("unexpected {other:?}"),
    }
    assert!(check_size("a.bin", 17, Some(17)).is_ok());
    assert!(check_size("a.bin", 17, None).is_ok());
}

#[test]
fn manager_limits_and_batch_outcome() {
    let manager = DownloadManager::new("root".into(), DownloadConfig::default()).expect("defaults are valid");
    assert_eq!(manager.root(), "root");
    assert_eq!(manager.config(), DownloadConfig::default());
    assert_eq!(manager.client_settings().user_agent, USER_AGENT);
    assert_eq!(manager.client_settings().connect_timeout_ms, 10000);
    assert_eq!(manager.client_settings().total_timeout_ms, None);
    assert_eq!(manager.client_settings().max_redirects, 5);
    let zero = DownloadConfig { concurrency: 0, ..DownloadConfig::default() };
    assert_eq!(
        invalid_plan_message(DownloadManager::new("root".into(), zero).map(|_| ())),
        "concurrency must be between 1 and 64"
    );
    let many = DownloadConfig { max_attempts: 17, ..DownloadConfig::default() };
    assert_eq!(
        invalid_plan_message(DownloadManager::new("root".into(), many).map(|_| ())),
        "max_attempts must be between 1 and 16"
    );
    let summary = DownloadSummary { completed_jobs: 2, logical_bytes: 10, network_bytes: 4 };
    assert_eq!(finish_batch(false, &Vec::new(), summary).unwrap(), summary);
    assert!(matches!(finish_batch(true, &vec!["x".into()], summary), Err(DownloadError::Cancelled)));
    match finish_batch(false, &vec!["first".into(), "second".into()], summary) {
        Err(DownloadError::Batch(message)) => assert_eq!(message, "first; second"),
        other => panic!("unexpected {other:?}"),
    }
}

#[test]
fn http_clients_build_with_and_without_a_deadline() {
    let (settings, built) = http_client(10000, None, 5);
    assert!(built.is_ok());
    assert_eq!(settings.user_agent, USER_AGENT);
    assert_eq!(settings.connect_timeout_ms, 10000);
    assert_eq!(settings.total_timeout_ms, None);
    assert_eq!(settings.max_redirects, 5);
    let (settings, built) = http_client(10000, Some(30000), 0);
    assert!(built.is_ok());
    assert_eq!(settings.total_timeout_ms, Some(30000));
    assert_eq!(settings.max_redirects, 0);
    assert_eq!(USER_AGENT, "Andromeda-Client/0.1.0");
}

#[test]
fn resumed_requests_carry_the_range_and_validator() {
    assert!(range_request(0, &None).is_none());
    let record = Some(ResumeRecord { url: "https://example.com/a".into(), validator: "\"stable\"".into() });
    let request = range_request(6, &record).expect("a resumed request");
    assert_eq!(request.range, "bytes=6-");
    assert_eq!(request.if_range, "\"stable\"");
    assert_eq!(range_request(1234567, &None).expect("a resumed request").range, "bytes=1234567-");
}

#[test]
fn responses_append_only_on_a_confirmed_range() {
    let plan = accept_response(
        6,
        "https://example.com/a",
        206,
        None,
        Some("bytes 6-10/11"),
        Some(Some("\"stable\"".into())),
        None,
    )
    .expect("accepted");
    assert!(plan.append);
    assert_eq!(plan.write_offset, 6);
    assert_eq!(plan.validator.as_deref(), Some("\"stable\""));

    let restart = accept_response(6, "https://example.com/a", 200, None, None, None, Some(Some("Wed".into())))
        .expect("accepted");
    assert!(!restart.append);
    assert_eq!(restart.write_offset, 0);
    assert_eq!(restart.validator.as_deref(), Some("Wed"));

    let wrong_start = accept_response(6, "https://example.com/a", 206, None, Some("bytes 0-10/11"), None, None)
        .expect("accepted");
    assert!(!wrong_start.append);
    assert_eq!(wrong_start.write_offset, 0);
    assert!(wrong_start.validator.is_none());

    assert_eq!(
        invalid_plan_message(accept_response(0, "http://example.com/x", 200, None, None, None, None).map(|_| ())),
        "redirected to a disallowed URL: http://example.com/x"
    );
    match accept_response(0, "https://example.com/a", 503, Some("7"), None, None, None) {
        Err(DownloadError::Http { status, retry_after }) => {
            assert_eq!(status, 503);
            assert_eq!(retry_after, Some(7));
        }
        other => panic!("expected an HTTP error, got {other:?}"),
    }
}

#[test]
fn rejects_windows_separators_and_prefixes() {
    for path in ["..\\x", "\\x", "\\\\server\\share\\x", "safe\\..\\escape", "C:\\x", ".\\x", "a\\CON.txt"] {
        assert!(validate_relative_path(path).is_err(), "{path}");
    }
    assert_eq!(
        invalid_plan_message(validate_relative_path("..\\x")),
        "unsafe destination: ..\\x"
    );
    assert_eq!(invalid_plan_message(validate_relative_path("a\\CON.txt")), "unsafe path component: CON.txt");
    assert!(validate_relative_path("libraries\\org\\example.jar").is_ok());
    assert!(validate_relative_path("a\\.\\b").is_ok());
}

#[test]
fn file_system_entries_are_judged_before_writing() {
    assert_eq!(parent_step(EntryKind::Missing, "/r/a").unwrap(), ParentStep::Create);
    assert_eq!(parent_step(EntryKind::Directory, "/r/a").unwrap(), ParentStep::Enter);
    assert_eq!(
        invalid_plan_message(parent_step(EntryKind::Symlink, "/r/a").map(|_| ())),
        "destination parent is not a real directory: /r/a"
    );
    assert!(parent_step(EntryKind::File, "/r/a").is_err());
    assert!(existing_file_check(EntryKind::Missing, "/r/f").is_ok());
    assert!(existing_file_check(EntryKind::File, "/r/f").is_ok());
    assert_eq!(
        invalid_plan_message(existing_file_check(EntryKind::Directory, "/r/f")),
        "download file is not a regular file: /r/f"
    );
    assert!(existing_file_check(EntryKind::Symlink, "/r/f").is_err());
    assert!(root_check(EntryKind::Directory).is_ok());
    assert_eq!(invalid_plan_message(root_check(EntryKind::Symlink)), "download root must be a real directory");
}

#[test]
fn jobs_publish_only_verified_parts_and_retry_within_limits() {
    let (stage, action) = job_step(JobStage::Checking, JobEvent::ExistingValid, 4, 250);
    assert_eq!(stage, JobStage::Done);
    assert!(matches!(action, JobAction::UseExisting));

    let (stage, action) = job_step(JobStage::Checking, JobEvent::ExistingUnusable, 4, 250);
    assert_eq!(stage, JobStage::Transferring { attempt: 1 });
    assert!(matches!(action, JobAction::Transfer { attempt: 1 }));

    let (stage, action) = job_step(stage, JobEvent::TransferFailed(DownloadError::Timeout), 4, 250);
    assert_eq!(stage, JobStage::Waiting { attempt: 2 });
    assert!(matches!(action, JobAction::Wait { attempt: 2, delay_ms: 250, reason: DownloadError::Timeout }));

    let (stage, action) = job_step(stage, JobEvent::WaitOver, 4, 250);
    assert_eq!(stage, JobStage::Transferring { attempt: 2 });
    assert!(matches!(action, JobAction::Transfer { attempt: 2 }));

    let (stage, action) = job_step(stage, JobEvent::TransferSucceeded, 4, 250);
    assert_eq!(stage, JobStage::Verifying);
    assert!(matches!(action, JobAction::VerifyPart));

    let (stage, action) = job_step(stage, JobEvent::PartVerified, 4, 250);
    assert_eq!(stage, JobStage::Publishing);
    assert!(matches!(action, JobAction::PublishPart));

    let (stage, action) = job_step(stage, JobEvent::Published, 4, 250);
    assert_eq!(stage, JobStage::Done);
    assert!(matches!(action, JobAction::Finish));

    let last = JobStage::Transferring { attempt: 4 };
    let (stage, action) = job_step(last, JobEvent::TransferFailed(DownloadError::Timeout), 4, 250);
    assert_eq!(stage, JobStage::Done);
    assert!(matches!(action, JobAction::Fail(DownloadError::Timeout)));

    let integrity = DownloadError::Integrity { path: "p".into(), reason: "bad".into() };
    let (_, action) = job_step(JobStage::Transferring { attempt: 1 }, JobEvent::TransferFailed(integrity), 4, 250);
    assert!(matches!(action, JobAction::Fail(DownloadError::Integrity { .. })));

    let (_, action) = job_step(JobStage::Waiting { attempt: 2 }, JobEvent::Cancelled, 4, 250);
    assert!(matches!(action, JobAction::Fail(DownloadError::Cancelled)));

    let (_, action) = job_step(JobStage::Checking, JobEvent::ExistingUnusable, 0, 250);
    assert!(matches!(action, JobAction::Fail(DownloadError::Worker(ref m)) if m == "attempt loop ended"));

    let (_, action) = job_step(JobStage::Checking, JobEvent::PartVerified, 4, 250);
    assert!(matches!(action, JobAction::Fail(DownloadError::Worker(ref m)) if m == "unexpected job event"));
}
