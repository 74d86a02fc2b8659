use talon::path::{split_components, DirPath};
use talon::resolver::{
    find_build_path_from, is_build_script_name, resolve_path_string, resolve_working_directory, PathKind,
    ResolveError,
};

fn dir(parts: &[&str]) -> DirPath {
    DirPath { comps: parts.iter().map(|p| p.to_string()).collect() }
}

fn names(d: &DirPath) -> Vec<&str> {
    d.comps.iter().map(|c| c.as_str()).collect()
}

#[test]
fn split_drops_empty_and_dot_components() {
    assert_eq!(split_components("a//b/./c/"), vec!["a", "b", "c"]);
    assert_eq!(split_components("/"), Vec::<String>::new());
    assert_eq!(split_components(""), Vec::<String>::new());
    assert_eq!(split_components("./x/.."), vec!["x", ".."]);
}

#[test]
fn build_script_name_is_recognised() {
    assert!(is_build_script_name("build.cc"));
    assert!(!is_build_script_name("build.c"));
    assert!(!is_build_script_name("Build.cc"));
}

#[test]
fn backtrack_from_depth_three_finds_root_project() {
    let start = dir(&["home", "me", "proj", "src", "a", "b"]);
    // levels up: 0 = b, 1 = a, 2 = src, 3 = proj, 4 = me, 5 = home, 6 = root
    let has = vec![false, false, false, true, false, false, false];
    let found = find_build_path_from(&start, &has, true).unwrap();
    assert_eq!(names(&found), vec!["home", "me", "proj"]);
}

#[test]
fn no_backtrack_from_depth_three_fails() {
    let start = dir(&["home", "me", "proj", "src", "a", "b"]);
    let has = vec![false, false, false, true, false, false, false];
    assert_eq!(find_build_path_from(&start, &has, false).unwrap_err(), ResolveError::NotFoundInCurrent);
}

#[test]
fn backtrack_prefers_nearest_script() {
    let start = dir(&["w", "outer", "inner"]);
    let has = vec![false, true, true, false];
    let found = find_build_path_from(&start, &has, true).unwrap();
    assert_eq!(names(&found), vec!["w", "outer"]);
}

#[test]
fn backtrack_exhausted_reports_parents() {
    let start = dir(&["a", "b"]);
    let has = vec![false, false, false];
    assert_eq!(find_build_path_from(&start, &has, true).unwrap_err(), ResolveError::NotFoundInParents);
}

#[test]
fn script_at_start_found_without_backtrack() {
    let start = dir(&["p"]);
    let found = find_build_path_from(&start, &vec![true, false], false).unwrap();
    assert_eq!(names(&found), vec!["p"]);
}

#[test]
fn tilde_path_expands_home() {
    let home = dir(&["home", "me"]);
    let cwd = dir(&["tmp"]);
    let d = resolve_path_string("~/proj", Some(&home), &cwd).unwrap();
    assert_eq!(names(&d), vec!["home", "me", "proj"]);
}

#[test]
fn tilde_path_without_home_fails() {
    let cwd = dir(&["tmp"]);
    assert_eq!(resolve_path_string("~/proj", None, &cwd).unwrap_err(), ResolveError::NoHomeDirectory);
}

#[test]
fn absolute_and_relative_paths() {
    let cwd = dir(&["work"]);
    let abs = resolve_path_string("/srv/app", None, &cwd).unwrap();
    assert_eq!(names(&abs), vec!["srv", "app"]);
    let rel = resolve_path_string("sub/dir", None, &cwd).unwrap();
    assert_eq!(names(&rel), vec!["work", "sub", "dir"]);
    let tilde_alone = resolve_path_string("~", None, &cwd).unwrap();
    assert_eq!(names(&tilde_alone), vec!["work", "~"]);
}

#[test]
fn path_naming_build_script_resolves_to_parent() {
    let cwd = dir(&["work"]);
    let d = resolve_path_string("proj/build.cc", None, &cwd).unwrap();
    assert_eq!(names(&d), vec!["work", "proj"]);
    let a = resolve_path_string("/srv/build.cc", None, &cwd).unwrap();
    assert_eq!(names(&a), vec!["srv"]);
}

#[test]
fn explicit_missing_path_fails() {
    let start = dir(&["nope"]);
    let r = resolve_working_directory(&start, true, PathKind::Missing, &vec![false, false], false);
    assert_eq!(r.unwrap_err(), ResolveError::PathMissing);
}

#[test]
fn explicit_file_path_fails() {
    let start = dir(&["notes.txt"]);
    let r = resolve_working_directory(&start, true, PathKind::File, &vec![false, false], true);
    assert_eq!(r.unwrap_err(), ResolveError::NotADirectory);
}

#[test]
fn explicit_directory_without_script_fails() {
    let start = dir(&["p", "q"]);
    let r = resolve_working_directory(&start, true, PathKind::Directory, &vec![false, true, false], false);
    assert_eq!(r.unwrap_err(), ResolveError::NotFoundInSpecified);
}

#[test]
fn explicit_directory_with_backtrack_walks_up() {
    let start = dir(&["p", "q"]);
    let r = resolve_working_directory(&start, true, PathKind::Directory, &vec![false, true, false], true);
    assert_eq!(names(&r.unwrap()), vec!["p"]);
}

#[test]
fn current_directory_search() {
    let start = dir(&["p", "q"]);
    let ok = resolve_working_directory(&start, false, PathKind::Directory, &vec![true, false, false], false);
    assert_eq!(names(&ok.unwrap()), vec!["p", "q"]);
    let err = resolve_working_directory(&start, false, PathKind::Directory, &vec![false, false, false], false);
    assert_eq!(err.unwrap_err(), ResolveError::NotFoundInCurrent);
}

#[test]
fn ancestors_and_file_name() {
    let d = dir(&["a", "b", "c"]);
    assert_eq!(names(&d.ancestor_at(2)), vec!["a"]);
    assert_eq!(d.file_name().map(|s| s.as_str()), Some("c"));
    assert!(DirPath::root().file_name().is_none());
}
