//! The application's own directories under the user's local data directory:
//! `ResumeIDE/`, with `projects/`, `templates/` and `logs/` inside, and a
//! scratch directory for builds.
use vstd::prelude::*;

use crate::locator::opt_text;
use crate::paths::{
    has_suffix, is_child_named, is_plain_name, join, joined, joined_keeps_non_verbatim, verbatim_like,
};

verus! {

/// Relies on `dirs::data_local_dir`: the user's local data directory, where
/// the platform and environment give one.
#[verifier::external_body]
fn data_local_dir() -> (r: Option<String>) {
    match dirs::data_local_dir() {
        Some(p) => Some(p.to_string_lossy().into_owned()),
        None => None,
    }
}

/// Relies on `dirs::cache_dir`: the user's cache directory, where the
/// platform and environment give one.
#[verifier::external_body]
fn cache_dir() -> (r: Option<String>) {
    match dirs::cache_dir() {
        Some(p) => Some(p.to_string_lossy().into_owned()),
        None => None,
    }
}

/// The name of the application's directory.
pub open spec fn app_dir_name() -> Seq<char> {
    seq!['R', 'e', 's', 'u', 'm', 'e', 'I', 'D', 'E']
}

/// The name of the scratch directory of builds.
pub open spec fn build_dir_name() -> Seq<char> {
    seq!['b', 'u', 'i', 'l', 'd']
}

/// `name` inside `dir`.
fn child(dir: &str, name: &str) -> (r: String)
    requires
        is_plain_name(name@),
    ensures
        is_child_named(r@, dir@, name@),
{
    join(dir, name)
}

/// `name` inside `dir`, where there is a `dir`.
fn child_of(dir: Option<String>, name: &str) -> (r: Option<String>)
    requires
        is_plain_name(name@),
    ensures
        r is Some <==> dir is Some,
        r matches Some(p) ==> is_child_named(p@, dir->0@, name@),
{
    match dir {
        Some(d) => Some(child(d.as_str(), name)),
        None => None,
    }
}

/// The application's root directory under the local data directory
/// `local`: `ResumeIDE` inside it; `None` where there is no `local`.
pub fn workspace_root_under(local: Option<String>) -> (r: Option<String>)
    ensures
        r is Some <==> local is Some,
        r matches Some(p) ==> is_child_named(p@, local->0@, app_dir_name()),
{
    proof {
        reveal_strlit("ResumeIDE");
    }
    assert("ResumeIDE"@ =~= app_dir_name());
    child_of(local, "ResumeIDE")
}

/// `path` is `name` inside the application's root directory under `local`.
pub open spec fn is_workspace_dir(path: Seq<char>, local: Seq<char>, name: Seq<char>) -> bool {
    exists|root: Seq<char>|
        #[trigger] is_child_named(root, local, app_dir_name()) && is_child_named(path, root, name)
}

/// `name` inside the application's root directory under the local data
/// directory `local`; `None` where there is no `local`.
pub fn workspace_dir_under(local: Option<String>, name: &str) -> (r: Option<String>)
    requires
        is_plain_name(name@),
    ensures
        r is Some <==> local is Some,
        r matches Some(p) ==> is_workspace_dir(p@, local->0@, name@),
{
    let root = workspace_root_under(local);
    let r = child_of(root, name);
    proof {
        if r is Some {
            assert(is_child_named(root->0@, local->0@, app_dir_name()));
            assert(is_child_named(r->0@, root->0@, name@));
        }
    }
    r
}

/// The application's root directory, `ResumeIDE` in this user's local data
/// directory; `None` where the user has none. See `workspace_root_under`.
pub fn get_workspace_root() -> (r: Option<String>)
    ensures
        r matches Some(p) ==> exists|local: Seq<char>| is_child_named(p@, local, app_dir_name()),
{
    let local = data_local_dir();
    let r = workspace_root_under(local);
    proof {
        if r is Some {
            assert(is_child_named(r->0@, local->0@, app_dir_name()));
        }
    }
    r
}

/// `path` is `name` inside the application's root directory under some
/// local data directory.
pub open spec fn is_workspace_child(path: Seq<char>, name: Seq<char>) -> bool {
    exists|local: Seq<char>| #[trigger] is_workspace_dir(path, local, name)
}

/// `name` in the application's root directory on this machine.
fn workspace_child(name: &str) -> (r: Option<String>)
    requires
        is_plain_name(name@),
    ensures
        r matches Some(p) ==> is_workspace_child(p@, name@),
{
    let local = data_local_dir();
    let r = workspace_dir_under(local, name);
    proof {
        if r is Some {
            assert(is_workspace_dir(r->0@, local->0@, name@));
        }
    }
    r
}

/// `projects` in the application's root directory.
pub fn get_projects_dir() -> (r: Option<String>)
    ensures
        r matches Some(p) ==> is_workspace_child(p@, "projects"@),
{
    proof {
        reveal_strlit("projects");
        assert("projects"@ =~= seq!['p', 'r', 'o', 'j', 'e', 'c', 't', 's']);
    }
    workspace_child("projects")
}

/// `templates` in the application's root directory.
pub fn get_templates_dir() -> (r: Option<String>)
    ensures
        r matches Some(p) ==> is_workspace_child(p@, "templates"@),
{
    proof {
        reveal_strlit("templates");
        assert("templates"@ =~= seq!['t', 'e', 'm', 'p', 'l', 'a', 't', 'e', 's']);
    }
    workspace_child("templates")
}

/// `logs` in the application's root directory.
pub fn get_logs_dir() -> (r: Option<String>)
    ensures
        r matches Some(p) ==> is_workspace_child(p@, "logs"@),
{
    proof {
        reveal_strlit("logs");
        assert("logs"@ =~= seq!['l', 'o', 'g', 's']);
    }
    workspace_child("logs")
}

/// The directories that make up a workspace at `root`, parents first: the
/// root, then its projects, templates and logs directories.
pub fn workspace_layout(root: &str) -> (r: Vec<String>)
    ensures
        r@.len() == 4,
        r@[0]@ == root@,
        is_child_named(r@[1]@, root@, "projects"@),
        is_child_named(r@[2]@, root@, "templates"@),
        is_child_named(r@[3]@, root@, "logs"@),
{
    proof {
        reveal_strlit("projects");
        assert("projects"@ =~= seq!['p', 'r', 'o', 'j', 'e', 'c', 't', 's']);
        reveal_strlit("templates");
        assert("templates"@ =~= seq!['t', 'e', 'm', 'p', 'l', 'a', 't', 'e', 's']);
        reveal_strlit("logs");
        assert("logs"@ =~= seq!['l', 'o', 'g', 's']);
    }
    let mut r: Vec<String> = Vec::new();
    r.push(root.to_owned());
    r.push(child(root, "projects"));
    r.push(child(root, "templates"));
    r.push(child(root, "logs"));
    r
}

/// The first of `cache`, `local` and `fallback` that is there.
pub open spec fn scratch_base(
    cache: Option<Seq<char>>,
    local: Option<Seq<char>>,
    fallback: Seq<char>,
) -> Seq<char> {
    match cache {
        Some(c) => c,
        None => match local {
            Some(l) => l,
            None => fallback,
        },
    }
}

/// The root under which builds keep their scratch files: the cache
/// directory, else the local data directory, else `fallback`.
pub fn scratch_root(cache: Option<String>, local: Option<String>, fallback: &str) -> (r: String)
    ensures
        r@ == scratch_base(opt_text(cache), opt_text(local), fallback@),
{
    match cache {
        Some(c) => c,
        None => match local {
            Some(l) => l,
            None => fallback.to_owned(),
        },
    }
}

/// `dir` is the scratch directory of builds under `base`: it ends with
/// `build` and, unless `base` is a verbatim path, it is `base`, then
/// `ResumeIDE`, then `build`, each with a separator or none before it.
pub open spec fn is_scratch_dir(dir: Seq<char>, base: Seq<char>) -> bool {
    &&& has_suffix(dir, build_dir_name())
    &&& !verbatim_like(base) ==> exists|app: Seq<char>|
        #[trigger] joined(base, app_dir_name(), app) && joined(app, build_dir_name(), dir)
}

/// The scratch directory of builds, `ResumeIDE/build` under the cache
/// directory `cache`, or under the local data directory `local` where there
/// is no cache directory, or else under `temp_dir`.
pub fn build_dir_under(cache: Option<String>, local: Option<String>, temp_dir: &str) -> (r: String)
    ensures
        is_scratch_dir(r@, scratch_base(opt_text(cache), opt_text(local), temp_dir@)),
{
    proof {
        reveal_strlit("ResumeIDE");
        reveal_strlit("build");
    }
    assert("ResumeIDE"@ =~= app_dir_name());
    assert("build"@ =~= build_dir_name());
    let base = scratch_root(cache, local, temp_dir);
    let app = join(base.as_str(), "ResumeIDE");
    let r = join(app.as_str(), "build");
    proof {
        if !verbatim_like(base@) {
            joined_keeps_non_verbatim(base@, app_dir_name(), app@);
            assert(joined(base@, app_dir_name(), app@));
        }
    }
    r
}

/// The scratch directory of builds on this machine, under the cache
/// directory, the local data directory or `temp_dir`; see
/// `build_dir_under`.
pub fn build_dir(temp_dir: &str) -> (r: String)
    ensures
        has_suffix(r@, build_dir_name()),
        exists|cache: Option<Seq<char>>, local: Option<Seq<char>>|
            #[trigger] is_scratch_dir(r@, scratch_base(cache, local, temp_dir@)),
{
    let cache = cache_dir();
    let local = data_local_dir();
    let r = build_dir_under(cache, local, temp_dir);
    assert(is_scratch_dir(r@, scratch_base(opt_text(cache), opt_text(local), temp_dir@)));
    r
}

} // verus!
