use job_supervisor::paths::{dirs_to_create, is_within_app_config, parent_dirs, temp_path_for, MAX_NEW_DIRS};
use job_supervisor::transfer::{
    check_destination, plan_destination, rename_retry, TransferFailure, TransferJob, TransferPhase,
    TransferStep, RENAME_ATTEMPTS,
};

fn started(total: u64) -> TransferJob {
    match TransferJob::start("/cfg/models/a.bin".to_string(), 200, Some(total), Some(1000), 0) {
        Ok(job) => job,
        Err(_) => panic!("expected a started transfer"),
    }
}

#[test]
fn destination_inside_root() {
    for backslash in [false, true] {
        assert!(is_within_app_config("/cfg/models/a.bin", "/cfg", backslash));
        assert!(is_within_app_config("/cfg//models/./a.bin", "/cfg/", backslash));
    }
    assert!(is_within_app_config("C:\\Users\\me\\cfg\\a.bin", "C:\\Users\\me\\cfg", true));
}

#[test]
fn destination_outside_root() {
    for backslash in [false, true] {
        assert!(!is_within_app_config("/etc/passwd", "/cfg", backslash));
        assert!(!is_within_app_config("/cfgx/a.bin", "/cfg", backslash));
        assert!(!is_within_app_config("/cfg", "/cfg", backslash));
        assert!(!is_within_app_config("cfg/a.bin", "/cfg", backslash));
    }
}

#[test]
fn dot_dot_is_resolved() {
    for backslash in [false, true] {
        assert!(is_within_app_config("/cfg/a/../x", "/cfg", backslash));
        assert!(!is_within_app_config("/cfg/../etc/passwd", "/cfg", backslash));
        assert!(!is_within_app_config("/cfg/models/../../x", "/cfg", backslash));
        assert!(!is_within_app_config("/cfg/a/..", "/cfg", backslash));
        assert!(!is_within_app_config("/../cfg/x", "/cfg", backslash));
    }
}

#[test]
fn backslash_separates_only_where_the_platform_says() {
    // on a platform where `\` is an ordinary character, `/cfg\x` lies beside `/cfg`
    assert!(!is_within_app_config("/cfg\\x", "/cfg", false));
    assert!(is_within_app_config("/cfg\\x", "/cfg", true));
    assert!(!is_within_app_config("C:\\Users\\me\\cfg\\a.bin", "C:\\Users\\me\\cfg", false));
}

#[test]
fn plan_gives_temp_sibling_and_parents() {
    match plan_destination("/cfg/m/a.bin", "/cfg", false) {
        Ok(p) => {
            assert_eq!(p.temp_path, "/cfg/m/a.bin.temp");
            assert_eq!(p.parent_dirs, vec!["/cfg", "/cfg/m"]);
        }
        Err(_) => panic!("expected a plan"),
    }
    assert!(matches!(plan_destination("/tmp/a.bin", "/cfg", true), Err(TransferFailure::OutsideRoot)));
    assert!(matches!(plan_destination("/cfg\\a.bin", "/cfg", false), Err(TransferFailure::OutsideRoot)));
    assert_eq!(temp_path_for("x"), "x.temp");
}

#[test]
fn check_destination_on_this_platform() {
    match check_destination("/cfg/a.bin", "/cfg") {
        Ok(p) => assert_eq!(p.temp_path, "/cfg/a.bin.temp"),
        Err(_) => panic!("expected a plan"),
    }
    assert!(matches!(check_destination("/tmp/a.bin", "/cfg"), Err(TransferFailure::OutsideRoot)));
}

#[test]
fn parent_dirs_outermost_first() {
    assert_eq!(parent_dirs("/a/b/c/f.temp", false), vec!["/a", "/a/b", "/a/b/c"]);
    assert_eq!(parent_dirs("a//b/f", false), vec!["a", "a//b"]);
    assert_eq!(parent_dirs("f", false), Vec::<String>::new());
    assert_eq!(parent_dirs("C:\\x\\f", true), vec!["C:", "C:\\x"]);
    assert_eq!(parent_dirs("C:\\x\\f", false), Vec::<String>::new());
}

#[test]
fn missing_dirs_within_limit() {
    assert_eq!(dirs_to_create(&vec![true, true, false, false], MAX_NEW_DIRS).ok(), Some(vec![2, 3]));
    assert_eq!(dirs_to_create(&vec![true, true], MAX_NEW_DIRS).ok(), Some(vec![]));
}

#[test]
fn too_many_missing_dirs_refused() {
    assert!(matches!(
        dirs_to_create(&vec![true, false, false, false, false], MAX_NEW_DIRS),
        Err(TransferFailure::DirectoryDepth)
    ));
    assert_eq!(dirs_to_create(&vec![false, false, false], MAX_NEW_DIRS).ok(), Some(vec![0, 1, 2]));
}

#[test]
fn missing_content_length_fails_fast() {
    let r = TransferJob::start("/cfg/a".to_string(), 200, None, None, 0);
    assert!(matches!(r, Err(TransferFailure::MissingContentLength)));
}

#[test]
fn failed_status_fails_fast() {
    let r = TransferJob::start("/cfg/a".to_string(), 404, Some(10), None, 0);
    assert!(matches!(r, Err(TransferFailure::Status(404))));
}

#[test]
fn complete_transfer_is_renamed_into_place() {
    let mut job = started(10);
    assert_eq!(job.temp_path, "/cfg/models/a.bin.temp");
    match job.on_chunk(4, false, 1_000_000) {
        TransferStep::Write { len, progress, .. } => {
            assert_eq!(len, 4);
            assert_eq!(progress.bytes_downloaded, 4);
            assert_eq!(progress.progress, 4000);
        }
        _ => panic!("expected a write"),
    }
    assert!(matches!(job.on_chunk(6, false, 2_000_000), TransferStep::Write { len: 6, .. }));
    assert!(matches!(job.on_body_end(), TransferStep::Finalize));
    assert!(matches!(job.phase, TransferPhase::Finalizing));
    assert!(matches!(job.on_renamed(Ok(())), TransferStep::Nothing));
    assert!(matches!(job.phase, TransferPhase::Completed));
    assert_eq!(job.downloaded, 10);
}

#[test]
fn abort_after_first_progress_discards() {
    let mut job = started(100);
    assert!(matches!(job.on_chunk(10, false, 1), TransferStep::Write { .. }));
    assert!(matches!(job.on_chunk(10, true, 2), TransferStep::Discard));
    assert!(matches!(job.phase, TransferPhase::Cancelled));
    // a second abort changes nothing
    assert!(matches!(job.on_chunk(10, true, 3), TransferStep::Nothing));
    assert!(matches!(job.phase, TransferPhase::Cancelled));
    assert!(matches!(job.on_body_end(), TransferStep::Nothing));
}

#[test]
fn short_body_is_discarded() {
    let mut job = started(100);
    assert!(matches!(job.on_chunk(40, false, 1), TransferStep::Write { .. }));
    assert!(matches!(job.on_body_end(), TransferStep::Discard));
    assert!(matches!(
        job.phase,
        TransferPhase::Failed(TransferFailure::Truncated { declared: 100, received: 40 })
    ));
}

#[test]
fn long_body_is_discarded() {
    let mut job = started(10);
    assert!(matches!(job.on_chunk(11, false, 1), TransferStep::Discard));
    assert!(matches!(job.phase, TransferPhase::Failed(TransferFailure::Overrun { declared: 10 })));
}

#[test]
fn network_failure_discards() {
    let mut job = started(10);
    assert!(matches!(job.on_failure(TransferFailure::Remote("reset".to_string())), TransferStep::Discard));
    assert!(matches!(job.phase, TransferPhase::Failed(TransferFailure::Remote(_))));
    assert!(matches!(job.on_failure(TransferFailure::Io("disk".to_string())), TransferStep::Nothing));
}

#[test]
fn rename_failure_discards() {
    let mut job = started(0);
    assert!(matches!(job.on_body_end(), TransferStep::Finalize));
    assert!(matches!(job.on_renamed(Err("busy".to_string())), TransferStep::Discard));
    match &job.phase {
        TransferPhase::Failed(TransferFailure::Rename(m)) => assert_eq!(m, "busy"),
        _ => panic!("expected a rename failure"),
    }
}

#[test]
fn throttled_chunk_asks_for_pause() {
    // 1 KB/s limit, 2048 bytes at once: two seconds
    let mut job = match TransferJob::start("/cfg/a".to_string(), 200, Some(4096), Some(1), 0) {
        Ok(job) => job,
        Err(_) => panic!("expected a started transfer"),
    };
    match job.on_chunk(2048, false, 0) {
        TransferStep::Write { pause, .. } => assert_eq!(pause, Some(2_000_000)),
        _ => panic!("expected a write"),
    }
}

#[test]
fn transfer_within_one_second_allowance_is_not_throttled() {
    // 1000 bytes at 1 KB/s: S/R under one second
    let mut job = match TransferJob::start("/cfg/a".to_string(), 200, Some(1000), Some(1), 0) {
        Ok(job) => job,
        Err(_) => panic!("expected a started transfer"),
    };
    match job.on_chunk(1000, false, 1_000) {
        TransferStep::Write { pause, .. } => assert_eq!(pause, None),
        _ => panic!("expected a write"),
    }
    assert_eq!(job.bucket.accumulated, 0);
}

#[test]
fn rename_retries_only_a_held_file() {
    assert_eq!(rename_retry(1, true, None), Some(20_000));
    assert_eq!(rename_retry(2, false, Some(32)), Some(40_000));
    assert_eq!(rename_retry(4, true, None), Some(160_000));
    assert_eq!(rename_retry(RENAME_ATTEMPTS, true, None), None);
    assert_eq!(rename_retry(1, false, Some(2)), None);
    assert_eq!(rename_retry(1, false, None), None);
}

#[test]
fn ten_megabytes_at_limit() {
    let total = 10_000_000u64;
    let mut job = match TransferJob::start("/cfg/big".to_string(), 200, Some(total), Some(1000), 0) {
        Ok(job) => job,
        Err(_) => panic!("expected a started transfer"),
    };
    let mut now = 0u64;
    let mut sent = 0u64;
    while sent < total {
        let n = 16_384u64.min(total - sent);
        sent += n;
        match job.on_chunk(n, false, now) {
            TransferStep::Write { pause, .. } => now += pause.unwrap_or(0),
            _ => panic!("expected a write"),
        }
    }
    assert!(now >= 9_765_625);
    assert!(matches!(job.on_body_end(), TransferStep::Finalize));
    assert!(matches!(job.on_renamed(Ok(())), TransferStep::Nothing));
    assert_eq!(job.downloaded, 10_000_000);
    assert_eq!(job.total_size, 10_000_000);
}
