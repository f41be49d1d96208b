//! The kinds of lifecycle hook and the names of their files.
use vstd::prelude::*;
use vstd::string::StrSliceExecFns;
use vstd::string::StringExecFns;

verus! {

/// One of the fixed lifecycle roles a hook script can play.
#[derive(Debug, Clone, Copy, PartialEq, Eq, Structural)]
pub enum HookKind {
    Init,
    Run,
    Reconfigure,
    HealthCheck,
    SmokeTest,
    FileUpdated,
}

/// The file name of a kind: the name of its template and of its script.
pub open spec fn kind_name(k: HookKind) -> Seq<char> {
    match k {
        HookKind::Init => seq!['i', 'n', 'i', 't'],
        HookKind::Run => seq!['r', 'u', 'n'],
        HookKind::Reconfigure => seq!['r', 'e', 'c', 'o', 'n', 'f', 'i', 'g', 'u', 'r', 'e'],
        HookKind::HealthCheck => seq!['h', 'e', 'a', 'l', 't', 'h', '_', 'c', 'h', 'e', 'c', 'k'],
        HookKind::SmokeTest => seq!['s', 'm', 'o', 'k', 'e', '_', 't', 'e', 's', 't'],
        HookKind::FileUpdated => seq!['f', 'i', 'l', 'e', '_', 'u', 'p', 'd', 'a', 't', 'e', 'd'],
    }
}

impl HookKind {
    /// The lowercase file name of this kind.
    pub fn file_name(&self) -> (r: &'static str)
        ensures
            r@ == kind_name(*self),
    {
        match self {
            HookKind::Init => {
                proof {
                    reveal_strlit("init");
                }
                let r = "init";
                assert(r@ =~= kind_name(*self));
                r
            },
            HookKind::Run => {
                proof {
                    reveal_strlit("run");
                }
                let r = "run";
                assert(r@ =~= kind_name(*self));
                r
            },
            HookKind::Reconfigure => {
                proof {
                    reveal_strlit("reconfigure");
                }
                let r = "reconfigure";
                assert(r@ =~= kind_name(*self));
                r
            },
            HookKind::HealthCheck => {
                proof {
                    reveal_strlit("health_check");
                }
                let r = "health_check";
                assert(r@ =~= kind_name(*self));
                r
            },
            HookKind::SmokeTest => {
                proof {
                    reveal_strlit("smoke_test");
                }
                let r = "smoke_test";
                assert(r@ =~= kind_name(*self));
                r
            },
            HookKind::FileUpdated => {
                proof {
                    reveal_strlit("file_updated");
                }
                let r = "file_updated";
                assert(r@ =~= kind_name(*self));
                r
            },
        }
    }
}

/// A file `name` inside the directory `dir`: the name alone where `dir` is
/// empty, and one `/` between the two unless `dir` already ends in one.
pub open spec fn joined(dir: Seq<char>, name: Seq<char>) -> Seq<char> {
    if dir.len() == 0 {
        name
    } else if dir.last() == '/' {
        dir + name
    } else {
        dir + seq!['/'] + name
    }
}

/// Joins a directory and a relative file name into one path.
pub fn join_path(dir: &str, name: &str) -> (r: String)
    ensures
        r@ == joined(dir@, name@),
{
    let n = dir.unicode_len();
    if n == 0 {
        return String::from_str(name);
    }
    let last = dir.get_char(n - 1);
    let mut r = String::from_str(dir);
    if last != '/' {
        proof {
            reveal_strlit("/");
        }
        r.append("/");
        assert("/"@ =~= seq!['/']);
    }
    r.append(name);
    r
}

} // verus!
