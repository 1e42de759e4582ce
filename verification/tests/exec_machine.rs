use demorunner::envelope::{exec_response, ExecError, Runtime};
use demorunner::exec::{
    classify_inspect, effective_timeout, exec_step, new_session, run_duration_nanos, ExecEvent,
    ExecPhase, ExecSession, InspectInfo, LogChunk, StreamTarget,
};
use demorunner::params::RunParams;

fn drive(events: Vec<ExecEvent>) -> ExecSession {
    let mut s = new_session();
    for e in events {
        let (next, _write) = exec_step(s, e);
        s = next;
    }
    s
}

fn inspect(exit_code: Option<i64>, started: &str, finished: &str) -> InspectInfo {
    InspectInfo {
        exit_code,
        started_at: Some(started.to_string()),
        finished_at: Some(finished.to_string()),
    }
}

#[test]
fn clean_run_reports_ok_with_positive_runtime() {
    let s = drive(vec![
        ExecEvent::StartOk,
        ExecEvent::Chunk(LogChunk::StdOut(b"hello\n".to_vec())),
        ExecEvent::StreamEnded,
        ExecEvent::InspectOk(inspect(
            Some(0),
            "2023-05-01T10:00:00.250Z",
            "2023-05-01T10:00:02.250Z",
        )),
    ]);
    assert_eq!(s.phase, ExecPhase::Finished);
    assert!(s.remove_requested);
    let outcome = s.outcome.clone().unwrap();
    assert_eq!(outcome, Ok(Runtime(2_000_000_000)));
    let r = exec_response("key".to_string(), RunParams::new(), &outcome);
    assert_eq!(r.status, "OK");
    assert_eq!(r.error, "");
    assert!(r.algo_info.run_time.unwrap() > 0);
}

#[test]
fn runtime_exceeds_sleep_threshold() {
    let s = drive(vec![
        ExecEvent::StartOk,
        ExecEvent::StreamEnded,
        ExecEvent::InspectOk(inspect(
            Some(0),
            "2023-05-01T10:00:00Z",
            "2023-05-01T10:00:02.104Z",
        )),
    ]);
    let outcome = s.outcome.clone().unwrap();
    let r = exec_response("key".to_string(), RunParams::new(), &outcome);
    assert_eq!(r.status, "OK");
    assert!(r.algo_info.run_time.unwrap() > 1_500_000_000);
}

#[test]
fn nonzero_exit_carries_captured_output_in_order() {
    let s = drive(vec![
        ExecEvent::StartOk,
        ExecEvent::Chunk(LogChunk::StdOut(b"a\n".to_vec())),
        ExecEvent::StreamEnded,
        ExecEvent::InspectOk(inspect(Some(5), "2023-05-01T10:00:00Z", "2023-05-01T10:00:01Z")),
    ]);
    assert!(s.remove_requested);
    let outcome = s.outcome.clone().unwrap();
    assert_eq!(outcome, Err(ExecError::NonZeroExitCode(5, "a\n".to_string())));
    let r = exec_response("key".to_string(), RunParams::new(), &outcome);
    assert_eq!(r.status, "KO");
    assert_eq!(r.error, "Non-zero exit code (5): a\n");
    assert_eq!(r.algo_info.run_time, None);
}

#[test]
fn deadline_fires_timeout_and_cleanup() {
    let s = drive(vec![
        ExecEvent::StartOk,
        ExecEvent::Chunk(LogChunk::StdOut(b"partial".to_vec())),
        ExecEvent::DeadlineFired,
    ]);
    assert_eq!(s.phase, ExecPhase::Finished);
    assert!(s.remove_requested);
    assert_eq!(s.outcome, Some(Err(ExecError::Timeout)));
    let r = exec_response("key".to_string(), RunParams::new(), &s.outcome.clone().unwrap());
    assert_eq!(r.error, "IPOLTimeoutError");
    assert_eq!(r.algo_info.error_message, "IPOLTimeoutError: Execution timeout");
}

#[test]
fn start_failure_finishes_with_engine_error_and_cleanup() {
    let s = drive(vec![ExecEvent::StartFailed("engine down".to_string())]);
    assert_eq!(s.phase, ExecPhase::Finished);
    assert!(s.remove_requested);
    assert_eq!(s.outcome, Some(Err(ExecError::EngineError("engine down".to_string()))));
}

#[test]
fn write_failure_finishes_with_io_error_and_cleanup() {
    let s = drive(vec![ExecEvent::StartOk, ExecEvent::WriteFailed("disk full".to_string())]);
    assert!(s.remove_requested);
    assert_eq!(s.outcome, Some(Err(ExecError::IoError("disk full".to_string()))));
}

#[test]
fn inspect_failure_finishes_with_engine_error_and_cleanup() {
    let s = drive(vec![
        ExecEvent::StartOk,
        ExecEvent::StreamEnded,
        ExecEvent::InspectFailed("gone".to_string()),
    ]);
    assert!(s.remove_requested);
    assert_eq!(s.outcome, Some(Err(ExecError::EngineError("gone".to_string()))));
}

#[test]
fn output_preserves_arrival_order_and_writes_target_files() {
    let mut s = new_session();
    let (next, w) = exec_step(s, ExecEvent::StartOk);
    s = next;
    assert!(w.is_none());
    let (next, w) = exec_step(s, ExecEvent::Chunk(LogChunk::StdOut(b"out1 ".to_vec())));
    s = next;
    let w = w.unwrap();
    assert_eq!(w.target, StreamTarget::Stdout);
    assert_eq!(w.data, b"out1 ".to_vec());
    let (next, w) = exec_step(s, ExecEvent::Chunk(LogChunk::StdErr(b"err1 ".to_vec())));
    s = next;
    let w = w.unwrap();
    assert_eq!(w.target, StreamTarget::Stderr);
    let (next, w) = exec_step(s, ExecEvent::Chunk(LogChunk::StdIn(b"ignored".to_vec())));
    s = next;
    assert!(w.is_none());
    let (next, w) = exec_step(s, ExecEvent::Chunk(LogChunk::StreamError("blip".to_string())));
    s = next;
    assert!(w.is_none());
    let (next, w) = exec_step(s, ExecEvent::Chunk(LogChunk::StdOut(b"out2".to_vec())));
    s = next;
    assert!(w.is_some());
    assert_eq!(s.output, "out1 err1 out2");
    assert_eq!(s.phase, ExecPhase::Running);
    assert!(!s.remove_requested);
}

#[test]
fn invalid_utf8_is_decoded_lossily() {
    let mut s = new_session();
    let (next, _) = exec_step(s, ExecEvent::StartOk);
    s = next;
    let (next, w) = exec_step(s, ExecEvent::Chunk(LogChunk::StdOut(vec![0x61, 0xff, 0x62])));
    s = next;
    // the capture file gets the raw bytes, the combined output the lossy text
    assert_eq!(w.unwrap().data, vec![0x61, 0xff, 0x62]);
    assert_eq!(s.output, "a\u{fffd}b");
}

#[test]
fn finished_session_ignores_further_events() {
    let s = drive(vec![ExecEvent::StartOk, ExecEvent::DeadlineFired, ExecEvent::StreamEnded,
        ExecEvent::Chunk(LogChunk::StdOut(b"late".to_vec()))]);
    assert_eq!(s.phase, ExecPhase::Finished);
    assert_eq!(s.output, "");
    assert_eq!(s.outcome, Some(Err(ExecError::Timeout)));
}

#[test]
fn effective_timeout_bounds_request() {
    assert_eq!(effective_timeout(Some(10), 300), 10);
    assert_eq!(effective_timeout(Some(400), 300), 300);
    assert_eq!(effective_timeout(None, 300), 300);
    assert_eq!(effective_timeout(Some(300), 300), 300);
}

#[test]
fn duration_from_timestamps() {
    assert_eq!(
        run_duration_nanos(
            &Some("2023-05-01T10:00:00Z".to_string()),
            &Some("2023-05-01T10:00:02.5Z".to_string()),
        ),
        2_500_000_000
    );
    // a finish stamped before its start counts as no duration
    assert_eq!(
        run_duration_nanos(
            &Some("2023-05-01T10:00:05Z".to_string()),
            &Some("2023-05-01T10:00:00Z".to_string()),
        ),
        0
    );
    // offsets are respected
    assert_eq!(
        run_duration_nanos(
            &Some("2023-05-01T10:00:00+02:00".to_string()),
            &Some("2023-05-01T09:00:01Z".to_string()),
        ),
        3_601_000_000_000
    );
    assert_eq!(run_duration_nanos(&None, &Some("2023-05-01T10:00:00Z".to_string())), 0);
    assert_eq!(run_duration_nanos(&Some("not a date".to_string()), &Some("2023-05-01T10:00:00Z".to_string())), 0);
}

#[test]
fn classify_inspect_without_state() {
    let r = classify_inspect(
        InspectInfo { exit_code: None, started_at: None, finished_at: None },
        String::new(),
    );
    assert_eq!(r, Ok(Runtime(0)));
    let r = classify_inspect(
        InspectInfo { exit_code: Some(2), started_at: None, finished_at: None },
        "boom".to_string(),
    );
    assert_eq!(r, Err(ExecError::NonZeroExitCode(2, "boom".to_string())));
}
