//! A hook instance: where its script goes, which template it comes from,
//! and how its kind reads the end of a run.
use vstd::prelude::*;
use vstd::string::StringExecFns;

use crate::kind::{join_path, joined, kind_name, HookKind};
use crate::outcome::{
    exit_code_outcome, exit_code_spec, file_updated_outcome, file_updated_spec,
    health_check_outcome, health_check_spec, smoke_test_outcome, smoke_test_spec, ExitCode,
    HealthCheck, RunStatus, SmokeCheck, NO_EXIT_CODE,
};

verus! {

/// Permission bits of a compiled hook script: `rwxr-xr-x`.
pub const HOOK_PERMISSIONS: u32 = 0o755;

/// A destination script path bound to the template it is rendered from.
#[derive(Debug)]
pub struct RenderPair {
    pub path: String,
    pub template: String,
}

impl RenderPair {
    pub fn new(concrete_path: String, template_path: String) -> (r: RenderPair)
        ensures
            r.path@ == concrete_path@,
            r.template@ == template_path@,
    {
        RenderPair { path: concrete_path, template: template_path }
    }
}

/// The text put in front of every line a hook writes: `"<group> hook[<kind>]:"`.
pub open spec fn preamble_spec(service_group: Seq<char>, kind: HookKind) -> Seq<char> {
    service_group + seq![' ', 'h', 'o', 'o', 'k', '['] + kind_name(kind) + seq![']', ':']
}

/// Builds the preamble of the log lines of a hook of the given kind.
pub fn stream_preamble(service_group: &str, kind: HookKind) -> (r: String)
    ensures
        r@ == preamble_spec(service_group@, kind),
{
    proof {
        reveal_strlit(" hook[");
        reveal_strlit("]:");
    }
    let mut r = String::from_str(service_group);
    r.append(" hook[");
    r.append(kind.file_name());
    r.append("]:");
    assert(" hook["@ =~= seq![' ', 'h', 'o', 'o', 'k', '[']);
    assert("]:"@ =~= seq![']', ':']);
    r
}

/// The capabilities shared by every kind of hook.
pub trait Hook: Sized {
    /// What a run of this kind of hook yields.
    type ExitValue;

    spec fn kind_spec() -> HookKind;

    spec fn pair_spec(&self) -> RenderPair;

    /// What a run that ended with the given exit code yields.
    spec fn exit_spec(code: Option<i32>) -> Self::ExitValue;

    /// What a run that could not be started or waited on yields.
    spec fn sentinel_spec() -> Self::ExitValue;

    fn kind() -> (k: HookKind)
        ensures
            k == Self::kind_spec(),
    ;

    fn from_pair(pair: RenderPair) -> (h: Self)
        ensures
            h.pair_spec() == pair,
    ;

    fn pair(&self) -> (p: &RenderPair)
        ensures
            *p == self.pair_spec(),
    ;

    fn handle_exit(&self, code: Option<i32>) -> (r: Self::ExitValue)
        ensures
            r == Self::exit_spec(code),
    ;

    fn sentinel() -> (r: Self::ExitValue)
        ensures
            r == Self::sentinel_spec(),
    ;

    fn file_name() -> (r: &'static str)
        ensures
            r@ == kind_name(Self::kind_spec()),
    {
        Self::kind().file_name()
    }

    /// Builds the hook of this kind for the given destination and template
    /// directories, where its template file exists and could be bound.
    fn load(concrete_dir: &str, template_dir: &str, template_ready: bool) -> (r: Option<Self>)
        ensures
            r is Some <==> template_ready,
            r matches Some(h) ==> {
                &&& h.pair_spec().path@ == joined(concrete_dir@, kind_name(Self::kind_spec()))
                &&& h.pair_spec().template@ == joined(template_dir@, kind_name(Self::kind_spec()))
            },
    {
        if !template_ready {
            return None;
        }
        let name = Self::file_name();
        let pair = RenderPair::new(join_path(concrete_dir, name), join_path(template_dir, name));
        Some(Self::from_pair(pair))
    }

    /// What a run of this hook yields, given how its process ended.
    fn run(&self, status: RunStatus) -> (r: Self::ExitValue)
        ensures
            r == (match status {
                RunStatus::Exited(code) => Self::exit_spec(code),
                _ => Self::sentinel_spec(),
            }),
    {
        match status {
            RunStatus::Exited(code) => self.handle_exit(code),
            _ => Self::sentinel(),
        }
    }

    fn path(&self) -> (r: &String)
        ensures
            r@ == self.pair_spec().path@,
    {
        &self.pair().path
    }

    fn template(&self) -> (r: &String)
        ensures
            r@ == self.pair_spec().template@,
    {
        &self.pair().template
    }
}

/// The hook run after a configuration file of the service changed.
#[derive(Debug)]
pub struct FileUpdatedHook(pub RenderPair);

impl Hook for FileUpdatedHook {
    type ExitValue = bool;

    open spec fn kind_spec() -> HookKind {
        HookKind::FileUpdated
    }

    open spec fn pair_spec(&self) -> RenderPair {
        self.0
    }

    open spec fn exit_spec(code: Option<i32>) -> bool {
        file_updated_spec(code)
    }

    open spec fn sentinel_spec() -> bool {
        false
    }

    fn kind() -> (k: HookKind) {
        HookKind::FileUpdated
    }

    fn from_pair(pair: RenderPair) -> (h: Self) {
        FileUpdatedHook(pair)
    }

    fn pair(&self) -> (p: &RenderPair) {
        &self.0
    }

    fn handle_exit(&self, code: Option<i32>) -> (r: bool) {
        file_updated_outcome(code)
    }

    fn sentinel() -> (r: bool) {
        false
    }
}

/// The hook that reports the health of the service.
#[derive(Debug)]
pub struct HealthCheckHook(pub RenderPair);

impl Hook for HealthCheckHook {
    type ExitValue = HealthCheck;

    open spec fn kind_spec() -> HookKind {
        HookKind::HealthCheck
    }

    open spec fn pair_spec(&self) -> RenderPair {
        self.0
    }

    open spec fn exit_spec(code: Option<i32>) -> HealthCheck {
        health_check_spec(code)
    }

    open spec fn sentinel_spec() -> HealthCheck {
        HealthCheck::Unknown
    }

    fn kind() -> (k: HookKind) {
        HookKind::HealthCheck
    }

    fn from_pair(pair: RenderPair) -> (h: Self) {
        HealthCheckHook(pair)
    }

    fn pair(&self) -> (p: &RenderPair) {
        &self.0
    }

    fn handle_exit(&self, code: Option<i32>) -> (r: HealthCheck) {
        health_check_outcome(code)
    }

    fn sentinel() -> (r: HealthCheck) {
        HealthCheck::default()
    }
}

/// The hook run once before the service starts.
#[derive(Debug)]
pub struct InitHook(pub RenderPair);

impl Hook for InitHook {
    type ExitValue = ExitCode;

    open spec fn kind_spec() -> HookKind {
        HookKind::Init
    }

    open spec fn pair_spec(&self) -> RenderPair {
        self.0
    }

    open spec fn exit_spec(code: Option<i32>) -> ExitCode {
        exit_code_spec(code)
    }

    open spec fn sentinel_spec() -> ExitCode {
        ExitCode(NO_EXIT_CODE)
    }

    fn kind() -> (k: HookKind) {
        HookKind::Init
    }

    fn from_pair(pair: RenderPair) -> (h: Self) {
        InitHook(pair)
    }

    fn pair(&self) -> (p: &RenderPair) {
        &self.0
    }

    fn handle_exit(&self, code: Option<i32>) -> (r: ExitCode) {
        exit_code_outcome(code)
    }

    fn sentinel() -> (r: ExitCode) {
        ExitCode::default()
    }
}

/// The hook run when the service's configuration changed.
#[derive(Debug)]
pub struct ReconfigureHook(pub RenderPair);

impl Hook for ReconfigureHook {
    type ExitValue = ExitCode;

    open spec fn kind_spec() -> HookKind {
        HookKind::Reconfigure
    }

    open spec fn pair_spec(&self) -> RenderPair {
        self.0
    }

    open spec fn exit_spec(code: Option<i32>) -> ExitCode {
        exit_code_spec(code)
    }

    open spec fn sentinel_spec() -> ExitCode {
        ExitCode(NO_EXIT_CODE)
    }

    fn kind() -> (k: HookKind) {
        HookKind::Reconfigure
    }

    fn from_pair(pair: RenderPair) -> (h: Self) {
        ReconfigureHook(pair)
    }

    fn pair(&self) -> (p: &RenderPair) {
        &self.0
    }

    fn handle_exit(&self, code: Option<i32>) -> (r: ExitCode) {
        exit_code_outcome(code)
    }

    fn sentinel() -> (r: ExitCode) {
        ExitCode::default()
    }
}

/// The hook that runs the service itself.
#[derive(Debug)]
pub struct RunHook(pub RenderPair);

impl Hook for RunHook {
    type ExitValue = ExitCode;

    open spec fn kind_spec() -> HookKind {
        HookKind::Run
    }

    open spec fn pair_spec(&self) -> RenderPair {
        self.0
    }

    open spec fn exit_spec(code: Option<i32>) -> ExitCode {
        exit_code_spec(code)
    }

    open spec fn sentinel_spec() -> ExitCode {
        ExitCode(NO_EXIT_CODE)
    }

    fn kind() -> (k: HookKind) {
        HookKind::Run
    }

    fn from_pair(pair: RenderPair) -> (h: Self) {
        RunHook(pair)
    }

    fn pair(&self) -> (p: &RenderPair) {
        &self.0
    }

    fn handle_exit(&self, code: Option<i32>) -> (r: ExitCode) {
        exit_code_outcome(code)
    }

    fn sentinel() -> (r: ExitCode) {
        ExitCode::default()
    }
}

/// The hook that checks a freshly started service.
#[derive(Debug)]
pub struct SmokeTestHook(pub RenderPair);

impl Hook for SmokeTestHook {
    type ExitValue = SmokeCheck;

    open spec fn kind_spec() -> HookKind {
        HookKind::SmokeTest
    }

    open spec fn pair_spec(&self) -> RenderPair {
        self.0
    }

    open spec fn exit_spec(code: Option<i32>) -> SmokeCheck {
        smoke_test_spec(code)
    }

    open spec fn sentinel_spec() -> SmokeCheck {
        SmokeCheck::Failed(NO_EXIT_CODE)
    }

    fn kind() -> (k: HookKind) {
        HookKind::SmokeTest
    }

    fn from_pair(pair: RenderPair) -> (h: Self) {
        SmokeTestHook(pair)
    }

    fn pair(&self) -> (p: &RenderPair) {
        &self.0
    }

    fn handle_exit(&self, code: Option<i32>) -> (r: SmokeCheck) {
        smoke_test_outcome(code)
    }

    fn sentinel() -> (r: SmokeCheck) {
        SmokeCheck::Failed(NO_EXIT_CODE)
    }
}

} // verus!
