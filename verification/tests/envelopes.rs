use demorunner::compile::{compile_error_message, compile_response, CompileError};
use demorunner::envelope::{
    exec_error_envelope, exec_error_message, exec_error_short, exec_response, ExecError, Runtime,
};
use demorunner::index;
use demorunner::params::RunParams;

#[test]
fn ok_outcome_reports_status_ok_and_runtime() {
    let outcome: Result<Runtime, ExecError> = Ok(Runtime(2_000_000_000));
    let r = exec_response("k1".to_string(), RunParams::new(), &outcome);
    assert_eq!(r.key, "k1");
    assert_eq!(r.status, "OK");
    assert_eq!(r.error, "");
    assert_eq!(r.algo_info.error_message, "");
    assert_eq!(r.algo_info.run_time, Some(2_000_000_000));
}

#[test]
fn nonzero_exit_reports_code_and_output() {
    let outcome: Result<Runtime, ExecError> =
        Err(ExecError::NonZeroExitCode(5, "a\n".to_string()));
    let r = exec_response("k".to_string(), RunParams::new(), &outcome);
    assert_eq!(r.status, "KO");
    assert_eq!(r.error, "Non-zero exit code (5): a\n");
    assert_eq!(r.algo_info.error_message, "Non-zero exit code (5): a\n");
    assert_eq!(r.algo_info.run_time, None);
}

#[test]
fn timeout_reports_short_and_long_form() {
    let outcome: Result<Runtime, ExecError> = Err(ExecError::Timeout);
    let r = exec_response("k".to_string(), RunParams::new(), &outcome);
    assert_eq!(r.status, "KO");
    assert_eq!(r.error, "IPOLTimeoutError");
    assert_eq!(r.algo_info.error_message, "IPOLTimeoutError: Execution timeout");
    assert_eq!(r.algo_info.run_time, None);
}

#[test]
fn error_message_forms() {
    assert_eq!(
        exec_error_message(&ExecError::NonZeroExitCode(-1, "x".to_string())),
        "Non-zero exit code (-1): x"
    );
    assert_eq!(exec_error_message(&ExecError::IoError("broken pipe".to_string())), "broken pipe");
    assert_eq!(exec_error_message(&ExecError::EngineError("no engine".to_string())), "no engine");
    assert_eq!(exec_error_message(&ExecError::ArchiveError("bad entry".to_string())), "zip: bad entry");
    assert_eq!(exec_error_message(&ExecError::PathEscape("/etc".to_string())), "/etc");
    assert_eq!(exec_error_short(&ExecError::Timeout), "IPOLTimeoutError");
    assert_eq!(
        exec_error_short(&ExecError::NonZeroExitCode(5, "a\n".to_string())),
        "Non-zero exit code (5): a\n"
    );
}

#[test]
fn error_body_carries_short_form() {
    let e = exec_error_envelope(&ExecError::Timeout);
    assert_eq!(e.error_message, "IPOLTimeoutError");
    let e = exec_error_envelope(&ExecError::IoError("oops".to_string()));
    assert_eq!(e.error_message, "oops");
}

#[test]
fn missing_dockerfile_message() {
    let outcome: Result<(), CompileError> =
        Err(CompileError::MissingDockerfile("missing".to_string()));
    let r = compile_response(&outcome);
    assert_eq!(r.status, "KO");
    assert_eq!(r.message, "Couldn't find dockerfile: missing");
    assert_eq!(r.buildlog, None);
}

#[test]
fn build_error_carries_transcript() {
    let outcome: Result<(), CompileError> =
        Err(CompileError::BuildError("step 1\nboom\n".to_string()));
    let r = compile_response(&outcome);
    assert_eq!(r.status, "KO");
    assert_eq!(r.buildlog, Some("step 1\nboom\n".to_string()));
}

#[test]
fn successful_compilation_envelope() {
    let outcome: Result<(), CompileError> = Ok(());
    let r = compile_response(&outcome);
    assert_eq!(r.status, "OK");
    assert_eq!(r.message, "");
    assert_eq!(r.buildlog, None);
    let outcome: Result<(), CompileError> = Err(CompileError::GitError("bad rev".to_string()));
    let r = compile_response(&outcome);
    assert_eq!(r.status, "KO");
    assert_eq!(r.message, "bad rev");
    assert_eq!(r.buildlog, None);
    assert_eq!(compile_error_message(&CompileError::EngineError("no engine".to_string())), "no engine");
    assert_eq!(compile_error_message(&CompileError::IoError("no space".to_string())), "no space");
}

#[test]
fn greeting_line() {
    assert_eq!(index(), "This is the IPOL DemoRunner module (docker)");
}
