//! Lifecycle hooks of a supervised service: the kinds of hook, how each
//! kind reads a finished process's exit status, and the table that decides
//! which hooks exist and when they are compiled again.
pub mod hook;
pub mod kind;
pub mod outcome;
pub mod table;

pub use hook::{
    stream_preamble, FileUpdatedHook, HealthCheckHook, Hook, InitHook, ReconfigureHook,
    RenderPair, RunHook, SmokeTestHook, HOOK_PERMISSIONS,
};
pub use kind::{join_path, HookKind};
pub use outcome::{ExitCode, HealthCheck, RunStatus, SmokeCheck};
pub use table::{CompileJob, HookTable};
