use sup_hooks::outcome::{
    exit_code_outcome, file_updated_outcome, health_check_outcome, smoke_test_outcome,
};
use sup_hooks::table::contains_kind;
use sup_hooks::{
    join_path, stream_preamble, CompileJob, ExitCode, FileUpdatedHook, HealthCheck,
    HealthCheckHook, Hook, HookKind, HookTable, InitHook, ReconfigureHook, RenderPair, RunHook,
    RunStatus, SmokeCheck, SmokeTestHook, HOOK_PERMISSIONS,
};

fn kinds_of(jobs: &[CompileJob]) -> Vec<HookKind> {
    jobs.iter().map(|j| j.kind).collect()
}

fn foo_table() -> HookTable {
    HookTable::default().load_hooks(
        "/hab/svc/foo/hooks",
        "/hab/pkgs/foo/hooks",
        true,
        &vec![HookKind::Run, HookKind::HealthCheck],
    )
}

#[test]
fn health_check_exit_codes() {
    assert_eq!(health_check_outcome(Some(0)), HealthCheck::Okay);
    assert_eq!(health_check_outcome(Some(1)), HealthCheck::Warning);
    assert_eq!(health_check_outcome(Some(2)), HealthCheck::Critical);
    assert_eq!(health_check_outcome(Some(3)), HealthCheck::Unknown);
    assert_eq!(health_check_outcome(Some(7)), HealthCheck::Unknown);
    assert_eq!(health_check_outcome(Some(-1)), HealthCheck::Unknown);
    assert_eq!(health_check_outcome(None), HealthCheck::Unknown);
}

#[test]
fn smoke_test_exit_codes() {
    assert_eq!(smoke_test_outcome(Some(0)), SmokeCheck::Okay);
    assert_eq!(smoke_test_outcome(Some(5)), SmokeCheck::Failed(5));
    assert_eq!(smoke_test_outcome(None), SmokeCheck::Failed(-1));
}

#[test]
fn plain_exit_codes() {
    assert_eq!(exit_code_outcome(Some(130)), ExitCode(130));
    assert_eq!(exit_code_outcome(Some(0)), ExitCode(0));
    assert_eq!(exit_code_outcome(None), ExitCode(-1));
    assert_eq!(ExitCode::default(), ExitCode(-1));
    assert_eq!(HealthCheck::default(), HealthCheck::Unknown);
}

#[test]
fn file_updated_exit_codes() {
    assert!(file_updated_outcome(Some(0)));
    assert!(!file_updated_outcome(Some(1)));
    assert!(!file_updated_outcome(None));
}

fn pair(kind: &str) -> RenderPair {
    RenderPair::new(format!("/svc/hooks/{}", kind), format!("/pkg/hooks/{}", kind))
}

#[test]
fn spawn_failure_gives_sentinel_for_every_kind() {
    assert!(!FileUpdatedHook(pair("file_updated")).run(RunStatus::SpawnFailed));
    assert_eq!(
        HealthCheckHook(pair("health_check")).run(RunStatus::SpawnFailed),
        HealthCheck::Unknown
    );
    assert_eq!(InitHook(pair("init")).run(RunStatus::SpawnFailed), ExitCode(-1));
    assert_eq!(ReconfigureHook(pair("reconfigure")).run(RunStatus::SpawnFailed), ExitCode(-1));
    assert_eq!(RunHook(pair("run")).run(RunStatus::SpawnFailed), ExitCode(-1));
    assert_eq!(
        SmokeTestHook(pair("smoke_test")).run(RunStatus::SpawnFailed),
        SmokeCheck::Failed(-1)
    );
}

#[test]
fn wait_failure_gives_sentinel() {
    assert_eq!(RunHook(pair("run")).run(RunStatus::WaitFailed), ExitCode(-1));
    assert_eq!(
        SmokeTestHook(pair("smoke_test")).run(RunStatus::WaitFailed),
        SmokeCheck::Failed(-1)
    );
}

#[test]
fn run_decodes_exit_status_per_kind() {
    assert!(FileUpdatedHook(pair("file_updated")).run(RunStatus::Exited(Some(0))));
    assert!(!FileUpdatedHook(pair("file_updated")).run(RunStatus::Exited(Some(1))));
    assert_eq!(
        HealthCheckHook(pair("health_check")).run(RunStatus::Exited(Some(1))),
        HealthCheck::Warning
    );
    assert_eq!(InitHook(pair("init")).run(RunStatus::Exited(None)), ExitCode(-1));
    assert_eq!(ReconfigureHook(pair("reconfigure")).run(RunStatus::Exited(Some(4))), ExitCode(4));
    assert_eq!(
        SmokeTestHook(pair("smoke_test")).run(RunStatus::Exited(Some(0))),
        SmokeCheck::Okay
    );
}

#[test]
fn kind_file_names() {
    assert_eq!(HookKind::Init.file_name(), "init");
    assert_eq!(HookKind::Run.file_name(), "run");
    assert_eq!(HookKind::Reconfigure.file_name(), "reconfigure");
    assert_eq!(HookKind::HealthCheck.file_name(), "health_check");
    assert_eq!(HookKind::SmokeTest.file_name(), "smoke_test");
    assert_eq!(HookKind::FileUpdated.file_name(), "file_updated");
    assert_eq!(SmokeTestHook::file_name(), "smoke_test");
}

#[test]
fn paths_are_joined() {
    assert_eq!(join_path("/a/b", "run"), "/a/b/run");
    assert_eq!(join_path("/a/b/", "run"), "/a/b/run");
    assert_eq!(join_path("", "run"), "run");
}

#[test]
fn preamble_names_group_and_kind() {
    assert_eq!(
        stream_preamble("foo.default", HookKind::HealthCheck),
        "foo.default hook[health_check]:"
    );
}

#[test]
fn load_finds_only_ready_templates() {
    let t = foo_table();
    assert!(t.init.is_none());
    assert!(t.reconfigure.is_none());
    assert!(t.smoke_test.is_none());
    assert!(t.file_updated.is_none());
    let run = t.run.as_ref().unwrap();
    assert_eq!(run.path(), "/hab/svc/foo/hooks/run");
    assert_eq!(run.template(), "/hab/pkgs/foo/hooks/run");
    let hc = t.health_check.as_ref().unwrap();
    assert_eq!(hc.path(), "/hab/svc/foo/hooks/health_check");
    assert_eq!(hc.template(), "/hab/pkgs/foo/hooks/health_check");
}

#[test]
fn load_without_template_directory_is_empty() {
    let t = HookTable::default().load_hooks("/svc", "/pkg", false, &vec![HookKind::Run]);
    assert!(t.run.is_none());
    assert!(t.health_check.is_none());
    assert_eq!(t.cfg_incarnation(), 0);
}

#[test]
fn load_without_template_directory_clears_loaded_hooks() {
    let mut t = foo_table();
    assert_eq!(t.compile(2).len(), 2);
    let t = t.load_hooks("/hab/svc/foo/hooks", "/nowhere", false, &vec![HookKind::Run]);
    assert!(t.run.is_none());
    assert!(t.health_check.is_none());
    assert!(t.init.is_none());
    assert!(t.reconfigure.is_none());
    assert!(t.smoke_test.is_none());
    assert!(t.file_updated.is_none());
    assert_eq!(t.cfg_incarnation(), 2);
}

#[test]
fn load_hook_needs_ready_template() {
    assert!(RunHook::load("/svc", "/pkg", false).is_none());
    let h = RunHook::load("/svc", "/pkg", true).unwrap();
    assert_eq!(h.path(), "/svc/run");
    assert_eq!(h.template(), "/pkg/run");
}

#[test]
fn compile_twice_same_incarnation_renders_once() {
    let mut t = foo_table();
    let first = t.compile(1);
    assert_eq!(kinds_of(&first), vec![HookKind::HealthCheck, HookKind::Run]);
    assert_eq!(t.cfg_incarnation(), 1);
    let second = t.compile(1);
    assert!(second.is_empty());
    assert_eq!(t.cfg_incarnation(), 1);
}

#[test]
fn compile_greater_incarnation_renders_again() {
    let mut t = foo_table();
    assert_eq!(t.compile(3).len(), 2);
    assert!(t.compile(2).is_empty());
    assert_eq!(t.cfg_incarnation(), 3);
    let again = t.compile(4);
    assert_eq!(kinds_of(&again), vec![HookKind::HealthCheck, HookKind::Run]);
    assert_eq!(again[1].path, "/hab/svc/foo/hooks/run");
    assert_eq!(again[1].template, "/hab/pkgs/foo/hooks/run");
    assert_eq!(t.cfg_incarnation(), 4);
}

#[test]
fn compile_at_zero_never_counts_as_done() {
    let mut t = foo_table();
    assert_eq!(t.compile(0).len(), 2);
    assert_eq!(t.compile(0).len(), 2);
    assert_eq!(t.cfg_incarnation(), 0);
}

#[test]
fn compile_empty_table_renders_nothing() {
    let mut t = HookTable::default();
    assert!(t.compile(1).is_empty());
    assert_eq!(t.cfg_incarnation(), 1);
}

#[test]
fn contains_kind_finds_members() {
    let v = vec![HookKind::Run, HookKind::Init];
    assert!(contains_kind(&v, HookKind::Init));
    assert!(!contains_kind(&v, HookKind::SmokeTest));
}

#[test]
fn end_to_end_foo_default() {
    let mut t = foo_table();
    let jobs = t.compile(1);
    assert_eq!(jobs.len(), 2);
    assert_eq!(HOOK_PERMISSIONS, 0o755);
    let hc = t.health_check.as_ref().unwrap();
    assert_eq!(hc.run(RunStatus::Exited(Some(2))), HealthCheck::Critical);
    let run = t.run.as_ref().unwrap();
    assert_eq!(run.run(RunStatus::Exited(Some(130))), ExitCode(130));
}
