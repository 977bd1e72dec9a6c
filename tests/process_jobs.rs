use job_supervisor::channel::{classify_chunk, is_error_like, mentions_failure, OutputStream};
use job_supervisor::process::{
    ExitStatus, ProcessAction, ProcessEvent, ProcessFailure, ProcessJob, ProcessPhase,
};

fn running(has_output: bool) -> ProcessJob {
    let mut job = ProcessJob::new(has_output);
    assert!(matches!(job.step(ProcessEvent::Spawned), ProcessAction::Nothing));
    assert!(matches!(job.phase, ProcessPhase::Running));
    job
}

#[test]
fn error_words_in_any_case() {
    assert!(is_error_like("Error: bad input"));
    assert!(is_error_like("conversion FAILED"));
    assert!(is_error_like("xErRoRx"));
    assert!(!is_error_like("frame=  120 fps=30"));
    assert!(!is_error_like(""));
    assert!(!is_error_like("fail ed"));
}

#[test]
fn lowered_text_match_is_exact_case() {
    assert!(mentions_failure("an error"));
    assert!(mentions_failure("it failed"));
    assert!(!mentions_failure("an ERROR"));
}

#[test]
fn invalid_utf8_chunk_is_replaced() {
    let line = classify_chunk(OutputStream::Stdout, &vec![0xff, 0xfe]);
    assert_eq!(line.text, "\u{FFFD}\u{FFFD}");
    assert!(!line.error_like);
    let line = classify_chunk(OutputStream::Stdout, &"é ok".as_bytes().to_vec());
    assert_eq!(line.text, "é ok");
    assert!(!line.error_like);
}

#[test]
fn chunk_cut_inside_a_character_still_reports_error() {
    let mut job = running(false);
    let mut bytes = b"Error: bad ".to_vec();
    bytes.push(0xc3);
    match job.step(ProcessEvent::Output(OutputStream::Stderr, bytes)) {
        ProcessAction::Emit(line) => {
            assert!(line.error_like);
            assert_eq!(line.text, "Error: bad \u{FFFD}");
        }
        _ => panic!("expected an output line"),
    }
}

#[test]
fn failing_process_reports_error_and_exit_code() {
    let mut job = running(false);
    let a = job.step(ProcessEvent::Output(OutputStream::Stderr, b"Error: bad input".to_vec()));
    match a {
        ProcessAction::Emit(line) => {
            assert!(line.error_like);
            assert_eq!(line.stream, OutputStream::Stderr);
            assert_eq!(line.text, "Error: bad input");
        }
        _ => panic!("expected an output line"),
    }
    let end = job.step(ProcessEvent::Terminated(ExitStatus { code: Some(1), signal: None }));
    assert!(matches!(end, ProcessAction::Stop { kill: false, discard_output: false }));
    match &job.phase {
        ProcessPhase::Failed(ProcessFailure::Exit(st)) => assert_eq!(st.code, Some(1)),
        _ => panic!("expected a failure with the exit code"),
    }
    assert!(job.is_finished());
}

#[test]
fn exit_code_zero_completes() {
    let mut job = running(true);
    let a = job.step(ProcessEvent::Output(OutputStream::Stdout, b"frame=1".to_vec()));
    match a {
        ProcessAction::Emit(line) => assert!(!line.error_like),
        _ => panic!("expected an output line"),
    }
    let end = job.step(ProcessEvent::Terminated(ExitStatus { code: Some(0), signal: None }));
    assert!(matches!(end, ProcessAction::Stop { kill: false, discard_output: false }));
    assert!(matches!(job.phase, ProcessPhase::Completed));
}

#[test]
fn killed_by_signal_fails_and_discards_output() {
    let mut job = running(true);
    let end = job.step(ProcessEvent::Terminated(ExitStatus { code: None, signal: Some(9) }));
    assert!(matches!(end, ProcessAction::Stop { kill: false, discard_output: true }));
    match &job.phase {
        ProcessPhase::Failed(ProcessFailure::Exit(st)) => {
            assert_eq!(st.code, None);
            assert_eq!(st.signal, Some(9));
        }
        _ => panic!("expected an exit failure"),
    }
}

#[test]
fn abort_kills_running_child() {
    let mut job = running(true);
    let a = job.step(ProcessEvent::CancelRequested);
    assert!(matches!(a, ProcessAction::Stop { kill: true, discard_output: true }));
    assert!(matches!(job.phase, ProcessPhase::Cancelled));
    // the child's late termination changes nothing
    let late = job.step(ProcessEvent::Terminated(ExitStatus { code: Some(0), signal: None }));
    assert!(matches!(late, ProcessAction::Nothing));
    assert!(matches!(job.phase, ProcessPhase::Cancelled));
}

#[test]
fn abort_twice_is_abort_once() {
    let mut job = running(false);
    let first = job.step(ProcessEvent::CancelRequested);
    assert!(matches!(first, ProcessAction::Stop { kill: true, discard_output: false }));
    let second = job.step(ProcessEvent::CancelRequested);
    assert!(matches!(second, ProcessAction::Nothing));
    assert!(matches!(job.phase, ProcessPhase::Cancelled));
}

#[test]
fn spawn_failure_is_fatal_before_running() {
    let mut job = ProcessJob::new(true);
    let a = job.step(ProcessEvent::SpawnFailed("not found".to_string()));
    assert!(matches!(a, ProcessAction::Stop { kill: false, discard_output: false }));
    match &job.phase {
        ProcessPhase::Failed(ProcessFailure::Spawn(m)) => assert_eq!(m, "not found"),
        _ => panic!("expected a spawn failure"),
    }
}

#[test]
fn read_failure_kills_child() {
    let mut job = running(true);
    let a = job.step(ProcessEvent::StreamError("pipe".to_string()));
    assert!(matches!(a, ProcessAction::Stop { kill: true, discard_output: true }));
    assert!(matches!(job.phase, ProcessPhase::Failed(ProcessFailure::Stream(_))));
}

#[test]
fn closed_channel_without_exit_fails() {
    let mut job = running(true);
    assert!(matches!(
        job.step(ProcessEvent::Closed),
        ProcessAction::Stop { kill: true, discard_output: true }
    ));
    match &job.phase {
        ProcessPhase::Failed(ProcessFailure::Exit(st)) => {
            assert_eq!(st.code, None);
            assert_eq!(st.signal, None);
        }
        _ => panic!("expected a failure without exit status"),
    }
}

#[test]
fn output_before_start_is_ignored() {
    let mut job = ProcessJob::new(false);
    let a = job.step(ProcessEvent::Output(OutputStream::Stdout, b"error".to_vec()));
    assert!(matches!(a, ProcessAction::Nothing));
    assert!(matches!(job.phase, ProcessPhase::NotStarted));
}
