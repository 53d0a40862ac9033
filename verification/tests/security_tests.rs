use theya::error::{ErrorKind, TheyaError};
use theya::security::{
    components, is_absolute_path, join_path, on_cwd, on_resolved, path_starts_with, render,
    AfterResolve, PathCheck,
};

fn s(v: &str) -> String {
    v.to_string()
}

fn resolve_of(step: PathCheck) -> (String, AfterResolve) {
    match step {
        PathCheck::Resolve { path, next } => (path, next),
        PathCheck::Done(_) => panic!("expected a path to resolve"),
    }
}

fn answer_of(step: PathCheck) -> Result<bool, TheyaError> {
    match step {
        PathCheck::Done(a) => a,
        PathCheck::Resolve { .. } => panic!("expected an answer"),
    }
}

#[test]
fn path_components() {
    assert_eq!(components("/a//b/./c/"), vec![s("a"), s("b"), s("c")]);
    assert_eq!(components("./a/../b"), vec![s("."), s("a"), s(".."), s("b")]);
    assert_eq!(components("/"), Vec::<String>::new());
    assert!(is_absolute_path("/x"));
    assert!(!is_absolute_path("x/"));
    assert_eq!(render(true, &vec![s("a"), s("b")]), "/a/b");
    assert_eq!(render(true, &vec![]), "/");
    assert_eq!(render(false, &vec![s(".")]), ".");
}

#[test]
fn joined_paths() {
    assert_eq!(join_path("/work", "src/a.rs"), "/work/src/a.rs");
    assert_eq!(join_path("/work/", "a"), "/work/a");
    assert_eq!(join_path("/work", "/etc/passwd"), "/etc/passwd");
    assert_eq!(join_path("", "a"), "a");
}

#[test]
fn prefixes_by_component() {
    assert!(path_starts_with("/work/src/a.rs", "/work"));
    assert!(path_starts_with("/work", "/work"));
    assert!(!path_starts_with("/workshop", "/work"));
    assert!(!path_starts_with("/etc/passwd", "/work"));
    assert!(!path_starts_with("work/a", "/work"));
    assert!(path_starts_with("/work//src/", "/work/."));
}

#[test]
fn existing_file_inside() {
    let (path, next) = resolve_of(on_cwd("src/a.rs", Ok(s("/work"))));
    assert_eq!(path, "/work");
    let (path, next) = resolve_of(on_resolved(next, Ok(s("/real/work"))));
    assert_eq!(path, "/work/src/a.rs");
    assert_eq!(answer_of(on_resolved(next, Ok(s("/real/work/src/a.rs")))).unwrap(), true);
}

#[test]
fn escaping_link_outside() {
    let (_, next) = resolve_of(on_cwd("link", Ok(s("/work"))));
    let (_, next) = resolve_of(on_resolved(next, Ok(s("/work"))));
    assert_eq!(answer_of(on_resolved(next, Ok(s("/etc/shadow")))).unwrap(), false);
}

#[test]
fn new_file_checks_ancestors() {
    let missing = || Err(TheyaError::new(ErrorKind::IoError, s("std::io::Error: not found")));
    let (_, next) = resolve_of(on_cwd("new/dir/f.txt", Ok(s("/work"))));
    let (_, next) = resolve_of(on_resolved(next, Ok(s("/work"))));
    let (path, next) = resolve_of(on_resolved(next, missing()));
    assert_eq!(path, "/work/new/dir");
    let (path, next) = resolve_of(on_resolved(next, missing()));
    assert_eq!(path, "/work/new");
    let (path, next) = resolve_of(on_resolved(next, missing()));
    assert_eq!(path, "/work");
    assert_eq!(answer_of(on_resolved(next, Ok(s("/work")))).unwrap(), true);
}

#[test]
fn nothing_resolves() {
    let missing = || Err(TheyaError::new(ErrorKind::IoError, s("std::io::Error: not found")));
    let (_, next) = resolve_of(on_cwd("/gone", Ok(s("/work"))));
    let (_, next) = resolve_of(on_resolved(next, Ok(s("/work"))));
    let (path, next) = resolve_of(on_resolved(next, missing()));
    assert_eq!(path, "/");
    assert_eq!(answer_of(on_resolved(next, missing())).unwrap(), false);
}

#[test]
fn working_directory_errors() {
    let e = answer_of(on_cwd("a", Err(TheyaError::new(ErrorKind::IoError, s("gone"))))).unwrap_err();
    assert_eq!(e.msg, "gone");
    let (_, next) = resolve_of(on_cwd("a", Ok(s("/w"))));
    let e = answer_of(on_resolved(next, Err(TheyaError::bug("denied")))).unwrap_err();
    assert_eq!(e.msg, "denied");
}
