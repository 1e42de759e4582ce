use vstd::prelude::*;
use vstd::string::*;

use crate::params::RunParams;
use crate::text::{i64_to_string, spec_i64_digits};

verus! {

/// Why an execution failed.
#[derive(Debug, Clone, PartialEq, Eq)]
pub enum ExecError {
    /// The command terminated with the given non-zero exit code; the string is
    /// the combined stdout and stderr captured so far, in arrival order.
    NonZeroExitCode(i64, String),
    /// A file could not be created, written or persisted.
    IoError(String),
    /// The container engine refused or failed a request.
    EngineError(String),
    /// The command outlived its deadline.
    Timeout,
    /// The working directory could not be archived.
    ArchiveError(String),
    /// An uploaded filename tried to leave the working directory.
    PathEscape(String),
}

/// The long form of an execution error, as carried in `algo_info`.
pub open spec fn spec_exec_error_message(e: ExecError) -> Seq<char> {
    match e {
        ExecError::NonZeroExitCode(code, output) => "Non-zero exit code ("@ + spec_i64_digits(
            code as int,
        ) + "): "@ + output@,
        ExecError::IoError(m) => m@,
        ExecError::EngineError(m) => m@,
        ExecError::Timeout => "IPOLTimeoutError: Execution timeout"@,
        ExecError::ArchiveError(m) => "zip: "@ + m@,
        ExecError::PathEscape(m) => m@,
    }
}

/// The short form of an execution error, as carried in `error`: a timeout is
/// reported as the bare `IPOLTimeoutError`, every other error by its long form.
pub open spec fn spec_exec_error_short(e: ExecError) -> Seq<char> {
    match e {
        ExecError::Timeout => "IPOLTimeoutError"@,
        _ => spec_exec_error_message(e),
    }
}

/// Renders the long form of an execution error.
pub fn exec_error_message(e: &ExecError) -> (r: String)
    ensures
        r@ == spec_exec_error_message(*e),
{
    match e {
        ExecError::NonZeroExitCode(code, output) => {
            let mut s = String::from_str("Non-zero exit code (");
            let digits = i64_to_string(*code);
            s.append(digits.as_str());
            s.append("): ");
            s.append(output.as_str());
            s
        },
        ExecError::IoError(m) => m.clone(),
        ExecError::EngineError(m) => m.clone(),
        ExecError::Timeout => String::from_str("IPOLTimeoutError: Execution timeout"),
        ExecError::ArchiveError(m) => {
            let mut s = String::from_str("zip: ");
            s.append(m.as_str());
            s
        },
        ExecError::PathEscape(m) => m.clone(),
    }
}

/// Renders the short form of an execution error.
pub fn exec_error_short(e: &ExecError) -> (r: String)
    ensures
        r@ == spec_exec_error_short(*e),
{
    match e {
        ExecError::Timeout => String::from_str("IPOLTimeoutError"),
        _ => exec_error_message(e),
    }
}

/// The per-run report inside a response envelope. `run_time` is the measured
/// run duration in nanoseconds, present only on clean terminations.
#[derive(Debug, Clone, PartialEq, Eq)]
pub struct AlgoInfo {
    pub error_message: String,
    pub run_time: Option<u64>,
}

/// The uniform status envelope an execution request is answered with.
#[derive(Debug, Clone, PartialEq, Eq)]
pub struct ExecAndWaitResponse {
    pub key: String,
    pub params: RunParams,
    pub status: String,
    pub error: String,
    pub algo_info: AlgoInfo,
}

/// The error body returned when an execution fails.
#[derive(Debug, Clone, PartialEq, Eq)]
pub struct ExecAndWaitError {
    pub error_message: String,
}

/// A measured run duration, in nanoseconds.
#[derive(Debug, Clone, Copy, PartialEq, Eq, Structural)]
pub struct Runtime(pub u64);

/// The success body of an execution: the archived working directory and the
/// measured run duration.
#[derive(Debug, Clone, PartialEq, Eq)]
pub struct ExecAndWaitSuccess {
    pub zip: Vec<u8>,
    pub runtime: Runtime,
}

/// Builds the status envelope for a finished execution.
///
/// A clean termination reports `status=OK`, empty `error`, empty
/// `algo_info.error_message` and the run duration. A failed one reports
/// `status=KO`, the error's short form in `error`, its long form in
/// `algo_info.error_message`, and no run duration.
pub fn exec_response(key: String, params: RunParams, outcome: &Result<Runtime, ExecError>) -> (r:
    ExecAndWaitResponse)
    ensures
        r.key == key,
        r.params == params,
        outcome matches Ok(rt) ==> r.status@ == "OK"@ && r.error@ == ""@
            && r.algo_info.error_message@ == ""@ && r.algo_info.run_time == Some(rt.0),
        outcome matches Err(e) ==> r.status@ == "KO"@ && r.error@ == spec_exec_error_short(*e)
            && r.algo_info.error_message@ == spec_exec_error_message(*e)
            && r.algo_info.run_time is None,
{
    proof {
        reveal_strlit("");
        assert(""@ =~= Seq::<char>::empty());
    }
    match outcome {
        Ok(rt) => ExecAndWaitResponse {
            key,
            params,
            status: String::from_str("OK"),
            error: String::new(),
            algo_info: AlgoInfo { error_message: String::new(), run_time: Some(rt.0) },
        },
        Err(e) => ExecAndWaitResponse {
            key,
            params,
            status: String::from_str("KO"),
            error: exec_error_short(e),
            algo_info: AlgoInfo { error_message: exec_error_message(e), run_time: None },
        },
    }
}

/// Builds the error body for a failed execution: the error's short form.
pub fn exec_error_envelope(e: &ExecError) -> (r: ExecAndWaitError)
    ensures
        r.error_message@ == spec_exec_error_short(*e),
{
    ExecAndWaitError { error_message: exec_error_short(e) }
}

} // verus!
