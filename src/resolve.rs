//! Where the backend executable lives.
//!
//! A path is modelled as the sequence of segments that are pushed, one after
//! another, onto an empty path: the components of a directory, then the names
//! appended below it.
use vstd::prelude::*;
use crate::platform::{
    executable_name, spec_executable_name, BuildMode, spec_suffixed_executable_name,
    suffixed_executable_name, HostOs,
};

verus! {

/// A path as its segments, in order.
pub open spec fn path_view(p: Seq<String>) -> Seq<Seq<char>> {
    p.map_values(|s: String| s@)
}

/// Name of the crate directory from which development builds are launched.
pub open spec fn spec_launch_subdir() -> Seq<char> {
    "src-tauri"@
}

/// The working directory with a trailing launch subdirectory stepped out of.
pub open spec fn spec_project_root(cwd: Seq<Seq<char>>) -> Seq<Seq<char>> {
    if cwd.len() > 0 && cwd.last() == spec_launch_subdir() {
        cwd.drop_last()
    } else {
        cwd
    }
}

/// Development location: `<project root>/backend/bin/<executable>`.
pub open spec fn spec_dev_backend_path(cwd: Seq<Seq<char>>, os: HostOs) -> Seq<Seq<char>> {
    spec_project_root(cwd) + seq!["backend"@, "bin"@, spec_executable_name(os)]
}

/// Release location of the suffixed binary beside the application executable.
pub open spec fn spec_release_suffixed_path(exe_dir: Seq<Seq<char>>, os: HostOs) -> Option<Seq<Seq<char>>> {
    match spec_suffixed_executable_name(os) {
        Some(name) => Some(exe_dir.push(name)),
        None => None,
    }
}

/// Release location: the suffixed binary when the OS has one and it is present,
/// else the unsuffixed one.
pub open spec fn spec_release_backend_path(
    exe_dir: Seq<Seq<char>>,
    os: HostOs,
    suffixed_exists: bool,
) -> Seq<Seq<char>> {
    match spec_release_suffixed_path(exe_dir, os) {
        Some(p) if suffixed_exists => p,
        _ => exe_dir.push(spec_executable_name(os)),
    }
}

fn push_name(p: &mut Vec<String>, name: &str)
    ensures
        path_view(final(p)@) == path_view(old(p)@).push(name@),
{
    let ghost before = p@;
    p.push(name.to_owned());
    proof {
        assert(path_view(p@) =~= path_view(before).push(name@));
    }
}

fn copy_path(p: &Vec<String>) -> (r: Vec<String>)
    ensures
        path_view(r@) == path_view(p@),
{
    let mut r: Vec<String> = Vec::new();
    let mut i: usize = 0;
    while i < p.len()
        invariant
            i <= p@.len(),
            path_view(r@) == path_view(p@.subrange(0, i as int)),
        decreases p@.len() - i,
    {
        let ghost before = r@;
        r.push(p[i].clone());
        proof {
            assert(r@ == before.push(p@[i as int]));
            assert(path_view(r@) =~= path_view(before).push(p@[i as int]@));
            assert(p@.subrange(0, i + 1) =~= p@.subrange(0, i as int).push(p@[i as int]));
            assert(path_view(p@.subrange(0, i + 1)) =~= path_view(p@.subrange(0, i as int)).push(p@[i as int]@));
        }
        i = i + 1;
    }
    proof {
        assert(p@.subrange(0, p@.len() as int) =~= p@);
    }
    r
}

/// Backend path for a development build launched from `cwd`: one level up when
/// launched from the `src-tauri` subdirectory, then `backend/bin/<executable>`.
pub fn dev_backend_path(cwd: &Vec<String>, os: HostOs) -> (r: Vec<String>)
    ensures
        path_view(r@) == spec_dev_backend_path(path_view(cwd@), os),
{
    let mut r = copy_path(cwd);
    let n = r.len();
    let subdir = "src-tauri".to_owned();
    if n > 0 && r[n - 1] == subdir {
        let ghost before = r@;
        r.pop();
        proof {
            assert(r@ =~= before.drop_last());
            assert(path_view(r@) =~= path_view(before).drop_last());
        }
    }
    proof {
        assert(path_view(r@) =~= spec_project_root(path_view(cwd@)));
    }
    push_name(&mut r, "backend");
    push_name(&mut r, "bin");
    push_name(&mut r, executable_name(os));
    proof {
        assert(path_view(r@) =~= spec_dev_backend_path(path_view(cwd@), os));
    }
    r
}

/// Release location of the suffixed binary in `exe_dir`, the one the resolver
/// looks for first; `None` where the OS has no packaged triple.
pub fn release_suffixed_path(exe_dir: &Vec<String>, os: HostOs) -> (r: Option<Vec<String>>)
    ensures
        r is Some == spec_release_suffixed_path(path_view(exe_dir@), os) is Some,
        r is Some ==> path_view(r->0@) == spec_release_suffixed_path(path_view(exe_dir@), os)->0,
{
    match suffixed_executable_name(os) {
        Some(name) => {
            let mut r = copy_path(exe_dir);
            push_name(&mut r, name);
            Some(r)
        },
        None => None,
    }
}

/// Backend path for a release build whose executable lies in `exe_dir`:
/// the suffixed binary when `suffixed_exists` reports it present, else the
/// unsuffixed name.
pub fn release_backend_path(exe_dir: &Vec<String>, os: HostOs, suffixed_exists: bool) -> (r: Vec<String>)
    ensures
        path_view(r@) == spec_release_backend_path(path_view(exe_dir@), os, suffixed_exists),
{
    match release_suffixed_path(exe_dir, os) {
        Some(p) if suffixed_exists => p,
        _ => {
            let mut r = copy_path(exe_dir);
            push_name(&mut r, executable_name(os));
            r
        },
    }
}

/// Backend path in `mode`, where `dir` is the working directory in
/// development and the application executable's directory in release, and
/// `suffixed_exists` reports on the path that `suffix_probe` named.
pub open spec fn spec_backend_path(
    mode: BuildMode,
    dir: Seq<Seq<char>>,
    os: HostOs,
    suffixed_exists: bool,
) -> Seq<Seq<char>> {
    if mode == BuildMode::Development {
        spec_dev_backend_path(dir, os)
    } else {
        spec_release_backend_path(dir, os, suffixed_exists)
    }
}

/// The path whose existence the resolver needs before it can decide: the
/// suffixed release binary, in release mode on an OS with a packaged triple.
pub fn suffix_probe(mode: BuildMode, dir: &Vec<String>, os: HostOs) -> (r: Option<Vec<String>>)
    ensures
        mode == BuildMode::Development ==> r is None,
        mode == BuildMode::Release ==> {
            &&& r is Some == spec_release_suffixed_path(path_view(dir@), os) is Some
            &&& r is Some ==> path_view(r->0@) == spec_release_suffixed_path(path_view(dir@), os)->0
        },
{
    if mode == BuildMode::Development {
        None
    } else {
        release_suffixed_path(dir, os)
    }
}

/// Backend path in `mode` (see `spec_backend_path`).
pub fn locate_backend(mode: BuildMode, dir: &Vec<String>, os: HostOs, suffixed_exists: bool) -> (r: Vec<String>)
    ensures
        path_view(r@) == spec_backend_path(mode, path_view(dir@), os, suffixed_exists),
{
    if mode == BuildMode::Development {
        dev_backend_path(dir, os)
    } else {
        release_backend_path(dir, os, suffixed_exists)
    }
}

/// In release mode, for an OS whose packaging adds a target triple: when only
/// the unsuffixed binary is present the resolver selects it, and when the
/// suffixed one is present (with or without the other) the suffixed one wins.
pub proof fn lemma_release_fallback(exe_dir: Seq<Seq<char>>, os: HostOs)
    requires
        spec_suffixed_executable_name(os) is Some,
    ensures
        spec_release_backend_path(exe_dir, os, false) == exe_dir.push(spec_executable_name(os)),
        spec_release_backend_path(exe_dir, os, true) == exe_dir.push(
            spec_suffixed_executable_name(os)->0,
        ),
{
}

} // verus!
