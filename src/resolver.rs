use vstd::prelude::*;

use crate::path::{ancestor, components_of, split_components, DirPath};

verus! {

/// The file whose presence marks a project root.
pub open spec fn build_script_name() -> Seq<char> {
    seq!['b', 'u', 'i', 'l', 'd', '.', 'c', 'c']
}

/// Why no project root could be found.
#[derive(Debug, PartialEq, Eq, Structural)]
pub enum ResolveError {
    /// The path starts with `~/` and there is no home directory.
    NoHomeDirectory,
    /// The given path names nothing on disk.
    PathMissing,
    /// The given path names something other than a directory.
    NotADirectory,
    /// The directory searched holds no build script.
    NotFoundInCurrent,
    /// Neither the directory searched nor any of its ancestors holds a build script.
    NotFoundInParents,
    /// The directory that was named explicitly holds no build script.
    NotFoundInSpecified,
}

/// What a path names on disk.
#[derive(Debug, Clone, Copy, PartialEq, Eq, Structural)]
pub enum PathKind {
    Missing,
    File,
    Directory,
}

/// The search may stop at the ancestor `k` levels up: it is looked at at all.
pub open spec fn searched(k: int, backtrack: bool) -> bool {
    k == 0 || backtrack
}

/// `k` is the nearest ancestor level that the search looks at and that holds a build script;
/// `has_script[j]` tells whether the ancestor `j` levels up holds one.
pub open spec fn nearest_script(has_script: Seq<bool>, backtrack: bool, k: int) -> bool {
    &&& 0 <= k < has_script.len()
    &&& has_script[k]
    &&& searched(k, backtrack)
    &&& forall|j: int| 0 <= j < k ==> !has_script[j]
}

/// Some ancestor that the search looks at holds a build script.
pub open spec fn script_reachable(has_script: Seq<bool>, backtrack: bool) -> bool {
    exists|k: int| 0 <= k < has_script.len() && has_script[k] && searched(k, backtrack)
}

/// Searches for the build script in `start_dir` and, when `wants_backtrack_search` holds,
/// in each of its ancestors up to the root, nearest first. `has_script[k]` tells whether
/// the directory `k` levels above `start_dir` holds the build script.
pub fn find_build_path_from(start_dir: &DirPath, has_script: &Vec<bool>, wants_backtrack_search: bool) -> (r:
    Result<DirPath, ResolveError>)
    requires
        has_script@.len() == start_dir@.len() + 1,
    ensures
        r is Ok <==> script_reachable(has_script@, wants_backtrack_search),
        r matches Ok(d) ==> exists|k: int|
            nearest_script(has_script@, wants_backtrack_search, k) && d@ == ancestor(start_dir@, k),
        r matches Err(e) ==> e == (if wants_backtrack_search {
            ResolveError::NotFoundInParents
        } else {
            ResolveError::NotFoundInCurrent
        }),
{
    let mut k: usize = 0;
    loop
        invariant
            has_script@.len() == start_dir@.len() + 1,
            k < has_script@.len(),
            searched(k as int, wants_backtrack_search),
            forall|j: int| 0 <= j < k ==> !has_script@[j],
        decreases has_script@.len() - k,
    {
        if has_script[k] {
            let d = start_dir.ancestor_at(k);
            assert(nearest_script(has_script@, wants_backtrack_search, k as int));
            return Ok(d);
        }
        if !wants_backtrack_search || k == has_script.len() - 1 {
            proof {
                assert forall|j: int| 0 <= j < has_script@.len() && searched(j, wants_backtrack_search)
                    implies !has_script@[j] by {
                    if j > k {
                        assert(k + 1 < has_script@.len() || j >= has_script@.len());
                    }
                }
            }
            if wants_backtrack_search {
                return Err(ResolveError::NotFoundInParents);
            } else {
                return Err(ResolveError::NotFoundInCurrent);
            }
        }
        k = k + 1;
    }
}

/// The path text starts with `~/`.
pub open spec fn is_home_relative(path: Seq<char>) -> bool {
    path.len() >= 2 && path[0] == '~' && path[1] == '/'
}

/// The path text starts at the root.
pub open spec fn is_absolute(path: Seq<char>) -> bool {
    path.len() >= 1 && path[0] == '/'
}

/// The directory that a path text names, before the build-script rule:
/// `~/` is taken from `home`, an absolute path from the root, anything else from `cwd`.
pub open spec fn named_directory(path: Seq<char>, home: Seq<Seq<char>>, cwd: Seq<Seq<char>>) -> Seq<Seq<char>> {
    if is_home_relative(path) {
        home + components_of(path.subrange(2, path.len() as int))
    } else if is_absolute(path) {
        components_of(path)
    } else {
        cwd + components_of(path)
    }
}

/// A path whose last component is the build script stands for the directory that holds it.
pub open spec fn script_dir(p: Seq<Seq<char>>) -> Seq<Seq<char>> {
    if p.len() > 0 && p.last() == build_script_name() {
        p.drop_last()
    } else {
        p
    }
}

/// Whether a text is the build script's name.
pub fn is_build_script_name(s: &str) -> (r: bool)
    ensures
        r == (s@ == build_script_name()),
{
    proof {
        reveal_strlit("build.cc");
    }
    let r = crate::path::same_text(s, "build.cc");
    assert("build.cc"@ =~= build_script_name());
    r
}

/// Turns a user-given path text into the directory to search: `~/` is expanded with `home`,
/// a relative path is taken from `cwd`, and a path that names the build script itself
/// stands for the directory that holds it.
pub fn resolve_path_string(path: &str, home: Option<&DirPath>, cwd: &DirPath) -> (r: Result<
    DirPath,
    ResolveError,
>)
    ensures
        r is Err <==> (is_home_relative(path@) && home is None),
        r matches Err(e) ==> e == ResolveError::NoHomeDirectory,
        r matches Ok(d) ==> d@ == script_dir(
            named_directory(path@, if home is Some { home.unwrap()@ } else { Seq::empty() }, cwd@),
        ),
{
    let n = path.unicode_len();
    let home_relative = n >= 2 && path.get_char(0) == '~' && path.get_char(1) == '/';
    let absolute = n >= 1 && path.get_char(0) == '/';
    let base = if home_relative {
        match home {
            None => {
                return Err(ResolveError::NoHomeDirectory);
            },
            Some(h) => {
                let rest = path.substring_char(2, n);
                h.join(&split_components(rest))
            },
        }
    } else if absolute {
        DirPath { comps: split_components(path) }
    } else {
        cwd.join(&split_components(path))
    };
    let len = base.comps.len();
    if len > 0 && is_build_script_name(base.comps[len - 1].as_str()) {
        Ok(base.ancestor_at(1))
    } else {
        Ok(base)
    }
}

/// Picks the project root. `start` is the directory to search: the one that an explicit
/// path named (`explicit`), or else the current directory. `kind` is what `start` names
/// on disk, and `has_script[k]` whether the directory `k` levels above `start` holds the
/// build script. An explicit path must name a directory; without backtracking it must
/// hold the build script itself.
pub fn resolve_working_directory(
    start: &DirPath,
    explicit: bool,
    kind: PathKind,
    has_script: &Vec<bool>,
    wants_backtrack_search: bool,
) -> (r: Result<DirPath, ResolveError>)
    requires
        has_script@.len() == start@.len() + 1,
    ensures
        explicit && kind == PathKind::Missing ==> r == Err::<DirPath, ResolveError>(ResolveError::PathMissing),
        explicit && kind == PathKind::File ==> r == Err::<DirPath, ResolveError>(ResolveError::NotADirectory),
        explicit && kind == PathKind::Directory && !wants_backtrack_search ==> (if has_script@[0] {
            r matches Ok(d) && d@ == start@
        } else {
            r == Err::<DirPath, ResolveError>(ResolveError::NotFoundInSpecified)
        }),
        (!explicit || (kind == PathKind::Directory && wants_backtrack_search)) ==> {
            &&& r is Ok <==> script_reachable(has_script@, wants_backtrack_search)
            &&& r matches Ok(d) ==> exists|k: int|
                nearest_script(has_script@, wants_backtrack_search, k) && d@ == ancestor(start@, k)
            &&& r matches Err(e) ==> e == (if wants_backtrack_search {
                ResolveError::NotFoundInParents
            } else {
                ResolveError::NotFoundInCurrent
            })
        },
{
    if explicit {
        match kind {
            PathKind::Missing => {
                return Err(ResolveError::PathMissing);
            },
            PathKind::File => {
                return Err(ResolveError::NotADirectory);
            },
            PathKind::Directory => {},
        }
        if !wants_backtrack_search {
            if has_script[0] {
                return Ok(start.duplicate());
            } else {
                return Err(ResolveError::NotFoundInSpecified);
            }
        }
    }
    find_build_path_from(start, has_script, wants_backtrack_search)
}

/// With the build script `depth` levels above the start and none nearer, a backtracking
/// search finds exactly that directory, while a search without backtracking from below it
/// finds nothing.
pub proof fn lemma_backtrack_reaches_script_above(has_script: Seq<bool>, depth: int)
    requires
        0 <= depth < has_script.len(),
        has_script[depth],
        forall|j: int| 0 <= j < depth ==> !has_script[j],
    ensures
        script_reachable(has_script, true),
        nearest_script(has_script, true, depth),
        forall|k: int| nearest_script(has_script, true, k) ==> k == depth,
        depth > 0 ==> !script_reachable(has_script, false),
{
    assert(nearest_script(has_script, true, depth));
    assert forall|k: int| nearest_script(has_script, true, k) implies k == depth by {
        if k < depth {
            assert(!has_script[k]);
        }
        if k > depth {
            assert(!has_script[depth]);
        }
    }
}

} // verus!
