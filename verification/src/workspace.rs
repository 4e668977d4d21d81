//! Decisions about the backing store and the workspace: whether the store is
//! git-backed, whether a workspace is colocated with its git working
//! directory, and `~/` expansion of configuration-supplied paths.
//!
//! The backend is a tagged variant fixed when the repository is opened; the
//! caller supplies the filesystem answers (the reported git working
//! directory and the canonicalized paths), and the decisions here are pure.

use vstd::prelude::*;
use vstd::string::StrSliceExecFns;
use vstd::string::StringExecFns;

verus! {

/// What backs the repository's store: a git repository, or something else.
#[derive(Clone, Copy, PartialEq, Eq, Structural, Debug)]
pub enum StoreBackend {
    GitBacked,
    Other,
}

/// Decides whether the store gives access to a git repository: `Ok` exactly
/// for a git-backed store, and otherwise the user error shown for any other
/// store. The caller holds the actual repository handle.
pub fn get_git_repo(backend: &StoreBackend) -> (r: Result<(), String>)
    ensures
        r is Ok <==> *backend is GitBacked,
        r matches Err(m) ==> m@ == "The repo is not backed by a git repo"@,
{
    match backend {
        StoreBackend::GitBacked => Ok(()),
        StoreBackend::Other => Err("The repo is not backed by a git repo".to_owned()),
    }
}

pub open spec fn view_opt(o: Option<&str>) -> Option<Seq<char>> {
    match o {
        Some(s) => Some(s@),
        None => None,
    }
}

/// The colocation rule. A workspace is colocated with its git repository
/// when the store is git-backed, the repository is not bare, and the git
/// working directory is the workspace root — either literally, or once both
/// the working directory and the workspace's `.git` entry are resolved to
/// canonical paths (the working directory may have been resolved from the
/// real `.git` path, so its canonical form is compared against the canonical
/// `.git` entry's parent).
pub open spec fn colocated_spec(
    backend: StoreBackend,
    git_workdir: Option<Seq<char>>,
    workspace_root: Seq<char>,
    canon_git_workdir: Option<Seq<char>>,
    dot_git_resolved: bool,
    canon_dot_git_parent: Option<Seq<char>>,
) -> bool {
    if !(backend is GitBacked) {
        false
    } else {
        match git_workdir {
            None => false,
            Some(wd) => if wd == workspace_root {
                true
            } else if !dot_git_resolved {
                false
            } else {
                canon_git_workdir == canon_dot_git_parent
            },
        }
    }
}

fn str_eq(a: &str, b: &str) -> (r: bool)
    ensures
        r == (a@ == b@),
{
    let sa = a.to_owned();
    let sb = b.to_owned();
    sa == sb
}

fn opt_str_eq(a: Option<&str>, b: Option<&str>) -> (r: bool)
    ensures
        r == (view_opt(a) == view_opt(b)),
{
    match (a, b) {
        (None, None) => true,
        (Some(x), Some(y)) => str_eq(x, y),
        _ => false,
    }
}

/// Decides colocation from the filesystem answers: `git_workdir` is the
/// working directory the git backend reports (`None` for a bare
/// repository); `canon_git_workdir` is its canonicalized form (`None` when
/// resolution failed); `dot_git_resolved` says whether the workspace root's
/// `.git` entry canonicalized, and `canon_dot_git_parent` is the parent of
/// that canonical path.
pub fn is_colocated_git_workspace(
    backend: &StoreBackend,
    git_workdir: Option<&str>,
    workspace_root: &str,
    canon_git_workdir: Option<&str>,
    dot_git_resolved: bool,
    canon_dot_git_parent: Option<&str>,
) -> (r: bool)
    ensures
        r == colocated_spec(
            *backend,
            view_opt(git_workdir),
            workspace_root@,
            view_opt(canon_git_workdir),
            dot_git_resolved,
            view_opt(canon_dot_git_parent),
        ),
{
    match backend {
        StoreBackend::Other => false,
        StoreBackend::GitBacked => match git_workdir {
            None => false,
            Some(wd) => {
                if str_eq(wd, workspace_root) {
                    true
                } else if !dot_git_resolved {
                    false
                } else {
                    opt_str_eq(canon_git_workdir, canon_dot_git_parent)
                }
            },
        },
    }
}

/// `~/` expansion: when the path begins with the literal `~/` prefix and a
/// home directory is known, the prefix is replaced by the home directory and
/// a separator; any other path, or an unknown home, leaves the path as it
/// is.
pub open spec fn expand_git_path_spec(path: Seq<char>, home_dir: Option<Seq<char>>) -> Seq<
    char,
> {
    if path.len() >= 2 && path[0] == '~' && path[1] == '/' && home_dir is Some {
        home_dir->0 + "/"@ + path.skip(2)
    } else {
        path
    }
}

/// Expands a leading `~/` in a configuration-supplied path to the given home
/// directory, as git does for paths such as its excludes file.
pub fn expand_git_path(path_str: &str, home_dir: Option<&str>) -> (r: String)
    ensures
        r@ == expand_git_path_spec(path_str@, view_opt(home_dir)),
{
    let n = path_str.unicode_len();
    if n >= 2 && path_str.get_char(0) == '~' && path_str.get_char(1) == '/' {
        if let Some(home) = home_dir {
            let mut out = home.to_owned();
            out.append("/");
            let rest = path_str.substring_char(2, n);
            out.append(rest);
            proof {
                assert(rest@ =~= path_str@.skip(2));
            }
            return out;
        }
    }
    path_str.to_owned()
}

} // verus!
