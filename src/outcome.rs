//! What a finished hook process means, for each kind of hook.
use vstd::prelude::*;

verus! {

/// The exit code of an `init`, `run` or `reconfigure` hook; `-1` stands for
/// "no code was observed".
#[derive(Debug, Clone, Copy, PartialEq, Eq, Structural)]
pub struct ExitCode(pub i32);

/// The code that stands for a process that did not report one.
pub const NO_EXIT_CODE: i32 = -1;

impl Default for ExitCode {
    fn default() -> (r: ExitCode)
        ensures
            r.0 == NO_EXIT_CODE,
    {
        ExitCode(NO_EXIT_CODE)
    }
}

/// The result of a health check hook.
#[derive(Debug, Clone, Copy, PartialEq, Eq, Structural)]
pub enum HealthCheck {
    Okay,
    Warning,
    Critical,
    Unknown,
}

impl Default for HealthCheck {
    fn default() -> (r: HealthCheck)
        ensures
            r == HealthCheck::Unknown,
    {
        HealthCheck::Unknown
    }
}

/// The result of a smoke test hook.
#[derive(Debug, Clone, Copy, PartialEq, Eq, Structural)]
pub enum SmokeCheck {
    Okay,
    Failed(i32),
}

/// How a hook process ended, as far as the supervisor could observe it.
#[derive(Debug, Clone, Copy, PartialEq, Eq, Structural)]
pub enum RunStatus {
    /// The process could not be started.
    SpawnFailed,
    /// The process was started but could not be waited on.
    WaitFailed,
    /// The process terminated, with its exit code where it reported one.
    Exited(Option<i32>),
}

pub open spec fn health_check_spec(code: Option<i32>) -> HealthCheck {
    match code {
        Some(0) => HealthCheck::Okay,
        Some(1) => HealthCheck::Warning,
        Some(2) => HealthCheck::Critical,
        _ => HealthCheck::Unknown,
    }
}

pub open spec fn smoke_test_spec(code: Option<i32>) -> SmokeCheck {
    match code {
        Some(0) => SmokeCheck::Okay,
        Some(c) => SmokeCheck::Failed(c),
        None => SmokeCheck::Failed(NO_EXIT_CODE),
    }
}

pub open spec fn exit_code_spec(code: Option<i32>) -> ExitCode {
    match code {
        Some(c) => ExitCode(c),
        None => ExitCode(NO_EXIT_CODE),
    }
}

pub open spec fn file_updated_spec(code: Option<i32>) -> bool {
    code == Some(0i32)
}

/// Reads a health check's exit code: 0 is ok, 1 a warning, 2 critical;
/// 3, any other code and no code at all are unknown.
pub fn health_check_outcome(code: Option<i32>) -> (r: HealthCheck)
    ensures
        r == health_check_spec(code),
{
    match code {
        Some(0) => HealthCheck::Okay,
        Some(1) => HealthCheck::Warning,
        Some(2) => HealthCheck::Critical,
        Some(3) => HealthCheck::Unknown,
        Some(_) => HealthCheck::default(),
        None => HealthCheck::default(),
    }
}

/// Reads a smoke test's exit code: 0 passes, any other code fails with that
/// code, and no code fails with `-1`.
pub fn smoke_test_outcome(code: Option<i32>) -> (r: SmokeCheck)
    ensures
        r == smoke_test_spec(code),
{
    match code {
        Some(0) => SmokeCheck::Okay,
        Some(c) => SmokeCheck::Failed(c),
        None => SmokeCheck::Failed(NO_EXIT_CODE),
    }
}

/// Reads the exit code of an `init`, `run` or `reconfigure` hook: the code
/// itself, or `-1` where there was none.
pub fn exit_code_outcome(code: Option<i32>) -> (r: ExitCode)
    ensures
        r == exit_code_spec(code),
{
    match code {
        Some(c) => ExitCode(c),
        None => ExitCode::default(),
    }
}

/// Reads the exit code of a `file_updated` hook: true exactly when the
/// process exited with code 0.
pub fn file_updated_outcome(code: Option<i32>) -> (r: bool)
    ensures
        r == file_updated_spec(code),
{
    match code {
        Some(0) => true,
        _ => false,
    }
}

} // verus!
