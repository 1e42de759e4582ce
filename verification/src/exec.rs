use vstd::prelude::*;
use vstd::arithmetic::mul::lemma_mul_inequality;

use crate::envelope::{ExecError, Runtime};

verus! {

/// The instant an RFC 3339 timestamp denotes, as whole seconds since the Unix
/// epoch and nanoseconds within the second, or nothing for text that is not a
/// valid timestamp. The result depends on the text alone.
pub uninterp spec fn rfc3339_instant(s: Seq<char>) -> Option<(i64, u32)>;

/// Relies on chrono's `DateTime::parse_from_rfc3339`, `timestamp` and
/// `timestamp_subsec_nanos`: parses an RFC 3339 timestamp to an instant.
#[verifier::external_body]
fn parse_rfc3339(s: &str) -> (r: Option<(i64, u32)>)
    ensures
        r == rfc3339_instant(s@),
{
    match chrono::DateTime::parse_from_rfc3339(s) {
        Ok(dt) => Some((dt.timestamp(), dt.timestamp_subsec_nanos())),
        Err(_) => None,
    }
}

/// The text a byte sequence reads as under lossy UTF-8 decoding. The result
/// depends on the bytes alone.
pub uninterp spec fn lossy_utf8(b: Seq<u8>) -> Seq<char>;

/// Relies on `String::from_utf8_lossy`: decodes bytes as UTF-8, replacing
/// invalid sequences; the result depends on the bytes alone.
#[verifier::external_body]
fn bytes_to_lossy_string(b: &Vec<u8>) -> (r: String)
    ensures
        r@ == lossy_utf8(b@),
{
    String::from_utf8_lossy(b).into_owned()
}

/// The nanoseconds from `start` to `end`, clamped below at zero (a finish
/// stamped before its start counts as no duration) and above at what a `u64`
/// holds.
pub open spec fn spec_duration_nanos(start_s: i64, start_n: u32, end_s: i64, end_n: u32) -> u64 {
    let d = (end_s - start_s) * 1_000_000_000 + end_n - start_n;
    if d < 0 {
        0u64
    } else if d > u64::MAX {
        u64::MAX
    } else {
        d as u64
    }
}

fn duration_nanos(start_s: i64, start_n: u32, end_s: i64, end_n: u32) -> (r: u64)
    ensures
        r == spec_duration_nanos(start_s, start_n, end_s, end_n),
{
    let secs: i128 = end_s as i128 - start_s as i128;
    proof {
        lemma_mul_inequality(secs as int, 0x1_0000_0000_0000_0000, 1_000_000_000);
        lemma_mul_inequality(-0x1_0000_0000_0000_0000, secs as int, 1_000_000_000);
    }
    let d: i128 = secs * 1_000_000_000i128 + end_n as i128 - start_n as i128;
    if d < 0 {
        0
    } else if d > u64::MAX as i128 {
        u64::MAX
    } else {
        d as u64
    }
}

/// The run duration reported for an execution: the distance between the two
/// timestamps when both are present and well-formed, and zero otherwise.
pub open spec fn spec_run_duration(started_at: Option<String>, finished_at: Option<String>) -> u64 {
    match (started_at, finished_at) {
        (Some(s), Some(f)) => match (rfc3339_instant(s@), rfc3339_instant(f@)) {
            (Some(a), Some(b)) => spec_duration_nanos(a.0, a.1, b.0, b.1),
            _ => 0u64,
        },
        _ => 0u64,
    }
}

/// Measures the run duration from a container's start and finish timestamps.
pub fn run_duration_nanos(started_at: &Option<String>, finished_at: &Option<String>) -> (r: u64)
    ensures
        r == spec_run_duration(*started_at, *finished_at),
{
    match (started_at, finished_at) {
        (Some(s), Some(f)) => {
            let a = parse_rfc3339(s.as_str());
            let b = parse_rfc3339(f.as_str());
            match (a, b) {
                (Some(a), Some(b)) => duration_nanos(a.0, a.1, b.0, b.1),
                _ => 0,
            }
        },
        _ => 0,
    }
}

/// The deadline given to an execution: the requested timeout bounded by the
/// configured maximum, or the maximum when nothing was requested. In seconds.
pub fn effective_timeout(requested: Option<u64>, max_timeout: u64) -> (r: u64)
    ensures
        r == (match requested {
            Some(v) => if v < max_timeout {
                v
            } else {
                max_timeout
            },
            None => max_timeout,
        }),
{
    match requested {
        Some(v) => if v < max_timeout {
            v
        } else {
            max_timeout
        },
        None => max_timeout,
    }
}

/// What a container inspection reports of a finished container.
#[derive(Debug, Clone, PartialEq, Eq)]
pub struct InspectInfo {
    pub exit_code: Option<i64>,
    pub started_at: Option<String>,
    pub finished_at: Option<String>,
}

/// Whether an inspection reports a non-zero exit code.
pub open spec fn is_nonzero_exit(exit_code: Option<i64>) -> bool {
    match exit_code {
        Some(c) => c != 0,
        None => false,
    }
}

/// The reported exit code, taking absence as a clean exit.
pub open spec fn exit_code_of(exit_code: Option<i64>) -> i64 {
    match exit_code {
        Some(c) => c,
        None => 0,
    }
}

/// Classifies a finished container: a non-zero exit code fails the execution
/// and carries the captured output; otherwise the run duration is measured
/// from the reported timestamps.
pub fn classify_inspect(info: InspectInfo, output: String) -> (r: Result<Runtime, ExecError>)
    ensures
        is_nonzero_exit(info.exit_code) ==> (r matches Err(ExecError::NonZeroExitCode(c, out))
            && c == exit_code_of(info.exit_code) && out == output),
        !is_nonzero_exit(info.exit_code) ==> r == Ok::<Runtime, ExecError>(
            Runtime(spec_run_duration(info.started_at, info.finished_at)),
        ),
{
    let nonzero = match info.exit_code {
        Some(c) => c != 0,
        None => false,
    };
    if nonzero {
        let c = match info.exit_code {
            Some(c) => c,
            None => 0,
        };
        Err(ExecError::NonZeroExitCode(c, output))
    } else {
        Ok(Runtime(run_duration_nanos(&info.started_at, &info.finished_at)))
    }
}

/// Which of the two capture files a log chunk belongs to.
#[derive(Debug, Clone, Copy, PartialEq, Eq, Structural)]
pub enum StreamTarget {
    Stdout,
    Stderr,
}

/// An append the driver must perform on a capture file.
#[derive(Debug, Clone, PartialEq, Eq)]
pub struct FileWrite {
    pub target: StreamTarget,
    pub data: Vec<u8>,
}

/// One message from the engine's log stream.
#[derive(Debug, Clone, PartialEq, Eq)]
pub enum LogChunk {
    StdOut(Vec<u8>),
    StdErr(Vec<u8>),
    StdIn(Vec<u8>),
    Console(Vec<u8>),
    StreamError(String),
}

/// What can happen to a running execution, as seen by its session.
#[derive(Debug, Clone, PartialEq, Eq)]
pub enum ExecEvent {
    StartOk,
    StartFailed(String),
    Chunk(LogChunk),
    WriteFailed(String),
    StreamEnded,
    DeadlineFired,
    InspectOk(InspectInfo),
    InspectFailed(String),
}

/// Where an execution session stands.
#[derive(Debug, Clone, Copy, PartialEq, Eq, Structural)]
pub enum ExecPhase {
    /// The container exists and carries the session's name.
    Created,
    /// The container runs; log chunks are being drained.
    Running,
    /// The log stream ended before the deadline; inspection is next.
    StreamDone,
    /// The outcome is decided; nothing changes any more.
    Finished,
}

/// One execution request's lifecycle, from a created container to a decided
/// outcome. The driver feeds it every event and performs the file writes and
/// the unconditional container removal it calls for.
#[derive(Debug, Clone, PartialEq, Eq)]
pub struct ExecSession {
    pub phase: ExecPhase,
    /// Combined stdout and stderr, lossily decoded, in arrival order.
    pub output: String,
    /// Whether the session has called for the container's removal.
    pub remove_requested: bool,
    /// The decided outcome, once there is one.
    pub outcome: Option<Result<Runtime, ExecError>>,
}

/// A fresh session over a created container.
pub fn new_session() -> (r: ExecSession)
    ensures
        r.phase is Created,
        r.output@ == Seq::<char>::empty(),
        !r.remove_requested,
        r.outcome is None,
{
    ExecSession { phase: ExecPhase::Created, output: String::new(), remove_requested: false, outcome: None }
}

/// The events a phase reacts to; every other event leaves the session as it is.
pub open spec fn spec_event_applies(phase: ExecPhase, e: ExecEvent) -> bool {
    match phase {
        ExecPhase::Created => e is StartOk || e is StartFailed,
        ExecPhase::Running => e is Chunk || e is WriteFailed || e is DeadlineFired
            || e is StreamEnded,
        ExecPhase::StreamDone => e is InspectOk || e is InspectFailed,
        ExecPhase::Finished => false,
    }
}

/// The session lifecycle, abstracted to its phase, whether the outcome is
/// decided, and whether removal has been requested.
pub open spec fn spec_step_flags(phase: ExecPhase, finished: bool, removed: bool, e: ExecEvent) -> (
    ExecPhase,
    bool,
    bool,
) {
    match phase {
        ExecPhase::Created => match e {
            ExecEvent::StartOk => (ExecPhase::Running, finished, removed),
            ExecEvent::StartFailed(_) => (ExecPhase::Finished, true, true),
            _ => (phase, finished, removed),
        },
        ExecPhase::Running => match e {
            ExecEvent::Chunk(_) => (phase, finished, removed),
            ExecEvent::WriteFailed(_) => (ExecPhase::Finished, true, true),
            ExecEvent::DeadlineFired => (ExecPhase::Finished, true, true),
            ExecEvent::StreamEnded => (ExecPhase::StreamDone, finished, removed),
            _ => (phase, finished, removed),
        },
        ExecPhase::StreamDone => match e {
            ExecEvent::InspectOk(_) => (ExecPhase::Finished, true, true),
            ExecEvent::InspectFailed(_) => (ExecPhase::Finished, true, true),
            _ => (phase, finished, removed),
        },
        ExecPhase::Finished => (phase, finished, removed),
    }
}

/// Advances a session by one event.
///
/// The returned write, when present, is the append the driver must perform on
/// the named capture file, in the order the calls are made.
pub fn exec_step(s: ExecSession, e: ExecEvent) -> (r: (ExecSession, Option<FileWrite>))
    ensures
        (r.0.phase, r.0.outcome is Some, r.0.remove_requested) == spec_step_flags(
            s.phase,
            s.outcome is Some,
            s.remove_requested,
            e,
        ),
        !spec_event_applies(s.phase, e) ==> r.0 == s && (r.1 is None),
        s.phase is Created && e is StartOk ==> r.0 == (ExecSession {
            phase: ExecPhase::Running,
            ..s
        }) && (r.1 is None),
        s.phase is Created ==> (e matches ExecEvent::StartFailed(m) ==> (r.0.outcome matches Some(
            Err(ExecError::EngineError(mm)),
        ) && mm@ == m@ && r.0.output == s.output && r.1 is None)),
        s.phase is Running ==> (e matches ExecEvent::Chunk(c) ==> r.0.outcome == s.outcome
            && r.0.remove_requested == s.remove_requested && (match c {
            LogChunk::StdOut(m) => r.0.output@ == s.output@ + lossy_utf8(m@) && (
            r.1 matches Some(w) && w.target is Stdout && w.data == m),
            LogChunk::StdErr(m) => r.0.output@ == s.output@ + lossy_utf8(m@) && (
            r.1 matches Some(w) && w.target is Stderr && w.data == m),
            _ => r.0.output == s.output && r.1 is None,
        })),
        s.phase is Running ==> (e matches ExecEvent::WriteFailed(m) ==> (r.0.outcome matches Some(
            Err(ExecError::IoError(mm)),
        ) && mm@ == m@ && r.0.output == s.output && r.1 is None)),
        s.phase is Running && e is DeadlineFired ==> r.0.outcome == Some(
            Err::<Runtime, ExecError>(ExecError::Timeout),
        ) && r.0.output == s.output && (r.1 is None),
        s.phase is Running && e is StreamEnded ==> r.0 == (ExecSession {
            phase: ExecPhase::StreamDone,
            ..s
        }) && (r.1 is None),
        s.phase is StreamDone ==> (e matches ExecEvent::InspectOk(info) ==> r.0.output == s.output
            && r.1 is None && (is_nonzero_exit(info.exit_code) ==> (r.0.outcome matches Some(
            Err(ExecError::NonZeroExitCode(c, out)),
        ) && c == exit_code_of(info.exit_code) && out@ == s.output@)) && (!is_nonzero_exit(
            info.exit_code,
        ) ==> r.0.outcome == Some(
            Ok::<Runtime, ExecError>(Runtime(spec_run_duration(info.started_at, info.finished_at))),
        ))),
        s.phase is StreamDone ==> (e matches ExecEvent::InspectFailed(m) ==> (
        r.0.outcome matches Some(Err(ExecError::EngineError(mm))) && mm@ == m@ && r.0.output
            == s.output && r.1 is None)),
{
    let ExecSession { phase, output, remove_requested, outcome } = s;
    match phase {
        ExecPhase::Created => match e {
            ExecEvent::StartOk => (
                ExecSession { phase: ExecPhase::Running, output, remove_requested, outcome },
                None,
            ),
            ExecEvent::StartFailed(m) => (
                ExecSession {
                    phase: ExecPhase::Finished,
                    output,
                    remove_requested: true,
                    outcome: Some(Err(ExecError::EngineError(m))),
                },
                None,
            ),
            _ => (ExecSession { phase, output, remove_requested, outcome }, None),
        },
        ExecPhase::Running => match e {
            ExecEvent::Chunk(LogChunk::StdOut(m)) => {
                let text = bytes_to_lossy_string(&m);
                let mut output = output;
                output.append(text.as_str());
                (
                    ExecSession { phase, output, remove_requested, outcome },
                    Some(FileWrite { target: StreamTarget::Stdout, data: m }),
                )
            },
            ExecEvent::Chunk(LogChunk::StdErr(m)) => {
                let text = bytes_to_lossy_string(&m);
                let mut output = output;
                output.append(text.as_str());
                (
                    ExecSession { phase, output, remove_requested, outcome },
                    Some(FileWrite { target: StreamTarget::Stderr, data: m }),
                )
            },
            ExecEvent::Chunk(_) => (
                ExecSession { phase, output, remove_requested, outcome },
                None,
            ),
            ExecEvent::WriteFailed(m) => (
                ExecSession {
                    phase: ExecPhase::Finished,
                    output,
                    remove_requested: true,
                    outcome: Some(Err(ExecError::IoError(m))),
                },
                None,
            ),
            ExecEvent::DeadlineFired => (
                ExecSession {
                    phase: ExecPhase::Finished,
                    output,
                    remove_requested: true,
                    outcome: Some(Err(ExecError::Timeout)),
                },
                None,
            ),
            ExecEvent::StreamEnded => (
                ExecSession { phase: ExecPhase::StreamDone, output, remove_requested, outcome },
                None,
            ),
            _ => (ExecSession { phase, output, remove_requested, outcome }, None),
        },
        ExecPhase::StreamDone => match e {
            ExecEvent::InspectOk(info) => {
                let captured = output.clone();
                let res = classify_inspect(info, captured);
                (
                    ExecSession {
                        phase: ExecPhase::Finished,
                        output,
                        remove_requested: true,
                        outcome: Some(res),
                    },
                    None,
                )
            },
            ExecEvent::InspectFailed(m) => (
                ExecSession {
                    phase: ExecPhase::Finished,
                    output,
                    remove_requested: true,
                    outcome: Some(Err(ExecError::EngineError(m))),
                },
                None,
            ),
            _ => (ExecSession { phase, output, remove_requested, outcome }, None),
        },
        ExecPhase::Finished => (ExecSession { phase, output, remove_requested, outcome }, None),
    }
}

/// The abstract lifecycle run over a whole event history, starting from a
/// fresh session.
pub open spec fn spec_run_flags(evs: Seq<ExecEvent>) -> (ExecPhase, bool, bool)
    decreases evs.len(),
{
    if evs.len() == 0 {
        (ExecPhase::Created, false, false)
    } else {
        let p = spec_run_flags(evs.drop_last());
        spec_step_flags(p.0, p.1, p.2, evs.last())
    }
}

/// The cleanup guard: however an execution runs — clean exit, failure,
/// timeout, engine error — once its outcome is decided, the session has
/// called for the container's removal, so the named container does not
/// outlive the request.
pub proof fn lemma_cleanup_guard(evs: Seq<ExecEvent>)
    ensures
        spec_run_flags(evs).1 ==> spec_run_flags(evs).2,
        spec_run_flags(evs).0 is Finished <==> spec_run_flags(evs).1,
    decreases evs.len(),
{
    if evs.len() == 0 {
    } else {
        lemma_cleanup_guard(evs.drop_last());
    }
}

} // verus!
