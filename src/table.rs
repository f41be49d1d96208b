//! The hooks of one service: which kinds are present, and when they are
//! compiled again.
use vstd::prelude::*;

use crate::hook::{
    FileUpdatedHook, HealthCheckHook, Hook, InitHook, ReconfigureHook, RenderPair, RunHook,
    SmokeTestHook,
};
use crate::kind::{joined, kind_name, HookKind};

verus! {

/// One hook to render: the kind, the script to write and the template to
/// render it from.
#[derive(Debug)]
pub struct CompileJob {
    pub kind: HookKind,
    pub path: String,
    pub template: String,
}

/// At most one hook of each kind, and the configuration incarnation the
/// hooks were last compiled for (0: never), which only `compile` moves.
#[derive(Debug)]
pub struct HookTable {
    pub health_check: Option<HealthCheckHook>,
    pub init: Option<InitHook>,
    pub file_updated: Option<FileUpdatedHook>,
    pub reconfigure: Option<ReconfigureHook>,
    pub run: Option<RunHook>,
    pub smoke_test: Option<SmokeTestHook>,
    pub(crate) cfg_incarnation: u64,
}

impl Default for HookTable {
    fn default() -> (r: HookTable)
        ensures
            r.is_empty(),
            r.last_compiled() == 0,
    {
        HookTable {
            health_check: None,
            init: None,
            file_updated: None,
            reconfigure: None,
            run: None,
            smoke_test: None,
            cfg_incarnation: 0,
        }
    }
}

/// The template binding of a hook, where there is one.
pub open(crate) spec fn pair_of_hook<H: Hook>(h: Option<H>) -> Option<RenderPair> {
    match h {
        Some(x) => Some(x.pair_spec()),
        None => None,
    }
}

/// The job that renders the hook of kind `k`, where there is one.
pub open(crate) spec fn job_if(k: HookKind, p: Option<RenderPair>) -> Seq<CompileJob> {
    match p {
        Some(p) => seq![CompileJob { kind: k, path: p.path, template: p.template }],
        None => Seq::empty(),
    }
}

/// What one call of `compile` may do: where `incarnation` is due, record it
/// and hand out one job per present hook, in the table's fixed order;
/// otherwise change nothing and hand out nothing. The hooks never change.
pub open(crate) spec fn compile_step(
    pre: HookTable,
    incarnation: u64,
    post: HookTable,
    jobs: Seq<CompileJob>,
) -> bool {
    &&& post.same_hooks(pre)
    &&& if pre.compile_due(incarnation) {
        &&& post.last_compiled() == incarnation
        &&& jobs == pre.all_jobs()
    } else {
        &&& post.last_compiled() == pre.last_compiled()
        &&& jobs.len() == 0
    }
}

impl HookTable {
    pub open(crate) spec fn last_compiled(&self) -> u64 {
        self.cfg_incarnation
    }

    /// The binding of the hook of kind `k`, where the table has one.
    pub open(crate) spec fn pair_of(&self, k: HookKind) -> Option<RenderPair> {
        match k {
            HookKind::Init => pair_of_hook(self.init),
            HookKind::Run => pair_of_hook(self.run),
            HookKind::Reconfigure => pair_of_hook(self.reconfigure),
            HookKind::HealthCheck => pair_of_hook(self.health_check),
            HookKind::SmokeTest => pair_of_hook(self.smoke_test),
            HookKind::FileUpdated => pair_of_hook(self.file_updated),
        }
    }

    pub open(crate) spec fn is_empty(&self) -> bool {
        forall|k: HookKind| #[trigger] self.pair_of(k) is None
    }

    pub open(crate) spec fn same_hooks(&self, other: HookTable) -> bool {
        &&& self.health_check == other.health_check
        &&& self.init == other.init
        &&& self.file_updated == other.file_updated
        &&& self.reconfigure == other.reconfigure
        &&& self.run == other.run
        &&& self.smoke_test == other.smoke_test
    }

    /// One job per present hook, in compilation order.
    pub open(crate) spec fn all_jobs(&self) -> Seq<CompileJob> {
        job_if(HookKind::FileUpdated, self.pair_of(HookKind::FileUpdated))
            + job_if(HookKind::HealthCheck, self.pair_of(HookKind::HealthCheck))
            + job_if(HookKind::Init, self.pair_of(HookKind::Init))
            + job_if(HookKind::Reconfigure, self.pair_of(HookKind::Reconfigure))
            + job_if(HookKind::Run, self.pair_of(HookKind::Run))
            + job_if(HookKind::SmokeTest, self.pair_of(HookKind::SmokeTest))
    }

    /// Whether a configuration of this incarnation calls for compiling:
    /// always before the first compilation, later only for a greater one.
    pub open(crate) spec fn compile_due(&self, incarnation: u64) -> bool {
        self.last_compiled() == 0 || incarnation > self.last_compiled()
    }

    /// The hook of kind `k` found at discovery: present exactly where its
    /// template is ready, with its script under `hooks` and its template
    /// under `templates`, each named after the kind.
    pub open(crate) spec fn discovered(&self, k: HookKind, hooks: Seq<char>, templates: Seq<char>, ready: Seq<HookKind>) -> bool {
        &&& (self.pair_of(k) is Some <==> ready.contains(k))
        &&& self.pair_of(k) matches Some(p) ==> {
            &&& p.path@ == joined(hooks, kind_name(k))
            &&& p.template@ == joined(templates, kind_name(k))
        }
    }

    /// Fills the table from a template directory. `templates_is_dir` tells
    /// whether `templates` is a directory; `ready` lists the kinds whose
    /// template file exists there and could be bound. Where `templates` is no
    /// directory the table is left without any hook. The recorded
    /// incarnation is kept either way.
    pub fn load_hooks(self, hooks: &str, templates: &str, templates_is_dir: bool, ready: &Vec<HookKind>) -> (r: Self)
        ensures
            r.last_compiled() == self.last_compiled(),
            templates_is_dir ==> forall|k: HookKind|
                #![trigger r.pair_of(k)]
                r.discovered(k, hooks@, templates@, ready@),
            !templates_is_dir ==> r.is_empty(),
    {
        let mut t = self;
        if !templates_is_dir {
            t.file_updated = None;
            t.health_check = None;
            t.init = None;
            t.reconfigure = None;
            t.run = None;
            t.smoke_test = None;
            return t;
        }
        t.file_updated = FileUpdatedHook::load(hooks, templates, contains_kind(ready, HookKind::FileUpdated));
        t.health_check = HealthCheckHook::load(hooks, templates, contains_kind(ready, HookKind::HealthCheck));
        t.init = InitHook::load(hooks, templates, contains_kind(ready, HookKind::Init));
        t.reconfigure = ReconfigureHook::load(hooks, templates, contains_kind(ready, HookKind::Reconfigure));
        t.run = RunHook::load(hooks, templates, contains_kind(ready, HookKind::Run));
        t.smoke_test = SmokeTestHook::load(hooks, templates, contains_kind(ready, HookKind::SmokeTest));
        assert forall|k: HookKind| #[trigger] t.discovered(k, hooks@, templates@, ready@) by {
            match k {
                HookKind::Init => {},
                HookKind::Run => {},
                HookKind::Reconfigure => {},
                HookKind::HealthCheck => {},
                HookKind::SmokeTest => {},
                HookKind::FileUpdated => {},
            }
        }
        t
    }

    /// The configuration incarnation the hooks were last compiled for.
    pub fn cfg_incarnation(&self) -> (r: u64)
        ensures
            r == self.last_compiled(),
    {
        self.cfg_incarnation
    }

    /// Decides whether the hooks are compiled for a configuration of the
    /// given incarnation, and if so, which scripts to render.
    pub fn compile(&mut self, incarnation: u64) -> (jobs: Vec<CompileJob>)
        ensures
            compile_step(*old(self), incarnation, *final(self), jobs@),
    {
        let mut jobs: Vec<CompileJob> = Vec::new();
        if self.cfg_incarnation != 0 && incarnation <= self.cfg_incarnation {
            return jobs;
        }
        self.cfg_incarnation = incarnation;
        let ghost pre = *self;
        push_hook(&mut jobs, &self.file_updated);
        push_hook(&mut jobs, &self.health_check);
        push_hook(&mut jobs, &self.init);
        push_hook(&mut jobs, &self.reconfigure);
        push_hook(&mut jobs, &self.run);
        push_hook(&mut jobs, &self.smoke_test);
        assert(jobs@ =~= pre.all_jobs());
        jobs
    }
}

/// Appends the job that renders `hook`, where there is one.
fn push_hook<H: Hook>(jobs: &mut Vec<CompileJob>, hook: &Option<H>)
    ensures
        final(jobs)@ == old(jobs)@ + job_if(H::kind_spec(), pair_of_hook(*hook)),
{
    if let Some(h) = hook {
        let pair = h.pair();
        jobs.push(CompileJob { kind: H::kind(), path: pair.path.clone(), template: pair.template.clone() });
    }
    assert(final(jobs)@ =~= old(jobs)@ + job_if(H::kind_spec(), pair_of_hook(*hook)));
}

/// Compiling twice for the same incarnation, one or greater, renders
/// nothing the second time, and the second call leaves the recorded
/// incarnation and the hooks as the first call left them.
pub proof fn lemma_compile_idempotent(
    t0: HookTable,
    incarnation: u64,
    t1: HookTable,
    jobs1: Seq<CompileJob>,
    t2: HookTable,
    jobs2: Seq<CompileJob>,
)
    requires
        incarnation >= 1,
        compile_step(t0, incarnation, t1, jobs1),
        compile_step(t1, incarnation, t2, jobs2),
    ensures
        jobs2.len() == 0,
        t2.last_compiled() == t1.last_compiled(),
        t2.same_hooks(t1),
{
}

/// Whether `jobs` renders the hook of kind `k` bound to `p`.
pub open(crate) spec fn renders(jobs: Seq<CompileJob>, k: HookKind, p: RenderPair) -> bool {
    jobs.contains(CompileJob { kind: k, path: p.path, template: p.template })
}

proof fn lemma_contains_left(a: Seq<CompileJob>, b: Seq<CompileJob>, x: CompileJob)
    requires
        a.contains(x),
    ensures
        (a + b).contains(x),
{
    let i = choose|i: int| 0 <= i < a.len() && a[i] == x;
    assert((a + b)[i] == x);
}

proof fn lemma_contains_right(a: Seq<CompileJob>, b: Seq<CompileJob>, x: CompileJob)
    requires
        b.contains(x),
    ensures
        (a + b).contains(x),
{
    let i = choose|i: int| 0 <= i < b.len() && b[i] == x;
    assert((a + b)[a.len() + i] == x);
}

/// The job list of a table renders its hook of kind `k`.
proof fn lemma_all_jobs_render(t: HookTable, k: HookKind)
    requires
        t.pair_of(k) is Some,
    ensures
        renders(t.all_jobs(), k, t.pair_of(k).unwrap()),
{
    let p = t.pair_of(k).unwrap();
    let x = CompileJob { kind: k, path: p.path, template: p.template };
    let j1 = job_if(HookKind::FileUpdated, t.pair_of(HookKind::FileUpdated));
    let j2 = job_if(HookKind::HealthCheck, t.pair_of(HookKind::HealthCheck));
    let j3 = job_if(HookKind::Init, t.pair_of(HookKind::Init));
    let j4 = job_if(HookKind::Reconfigure, t.pair_of(HookKind::Reconfigure));
    let j5 = job_if(HookKind::Run, t.pair_of(HookKind::Run));
    let j6 = job_if(HookKind::SmokeTest, t.pair_of(HookKind::SmokeTest));
    assert(job_if(k, t.pair_of(k))[0] == x);
    match k {
        HookKind::FileUpdated => {
            lemma_contains_left(j1, j2, x);
            lemma_contains_left(j1 + j2, j3, x);
            lemma_contains_left(j1 + j2 + j3, j4, x);
            lemma_contains_left(j1 + j2 + j3 + j4, j5, x);
            lemma_contains_left(j1 + j2 + j3 + j4 + j5, j6, x);
        },
        HookKind::HealthCheck => {
            lemma_contains_right(j1, j2, x);
            lemma_contains_left(j1 + j2, j3, x);
            lemma_contains_left(j1 + j2 + j3, j4, x);
            lemma_contains_left(j1 + j2 + j3 + j4, j5, x);
            lemma_contains_left(j1 + j2 + j3 + j4 + j5, j6, x);
        },
        HookKind::Init => {
            lemma_contains_right(j1 + j2, j3, x);
            lemma_contains_left(j1 + j2 + j3, j4, x);
            lemma_contains_left(j1 + j2 + j3 + j4, j5, x);
            lemma_contains_left(j1 + j2 + j3 + j4 + j5, j6, x);
        },
        HookKind::Reconfigure => {
            lemma_contains_right(j1 + j2 + j3, j4, x);
            lemma_contains_left(j1 + j2 + j3 + j4, j5, x);
            lemma_contains_left(j1 + j2 + j3 + j4 + j5, j6, x);
        },
        HookKind::Run => {
            lemma_contains_right(j1 + j2 + j3 + j4, j5, x);
            lemma_contains_left(j1 + j2 + j3 + j4 + j5, j6, x);
        },
        HookKind::SmokeTest => {
            lemma_contains_right(j1 + j2 + j3 + j4 + j5, j6, x);
        },
    }
}

/// Compiling for an incarnation greater than the recorded one always
/// renders every present hook, whatever was rendered before, and records
/// that incarnation.
pub proof fn lemma_compile_greater_renders_all(
    t0: HookTable,
    incarnation: u64,
    t1: HookTable,
    jobs: Seq<CompileJob>,
)
    requires
        incarnation > t0.last_compiled(),
        compile_step(t0, incarnation, t1, jobs),
    ensures
        t1.last_compiled() == incarnation,
        jobs == t0.all_jobs(),
        forall|k: HookKind| #[trigger] t0.pair_of(k) matches Some(p) ==> renders(jobs, k, p),
{
    assert forall|k: HookKind| #[trigger] t0.pair_of(k) matches Some(p) ==> renders(jobs, k, p) by {
        if t0.pair_of(k) is Some {
            lemma_all_jobs_render(t0, k);
        }
    }
}

/// Whether `kinds` holds `k`.
pub fn contains_kind(kinds: &Vec<HookKind>, k: HookKind) -> (r: bool)
    ensures
        r == kinds@.contains(k),
{
    let mut i: usize = 0;
    while i < kinds.len()
        invariant
            i <= kinds.len(),
            forall|j: int| 0 <= j < i ==> kinds@[j] != k,
        decreases kinds.len() - i,
    {
        if kinds[i] == k {
            return true;
        }
        i = i + 1;
    }
    false
}

} // verus!
