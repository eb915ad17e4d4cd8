use app_shell::persist::{join_path, plan_save, resolve_target, MkdirFailurePolicy};

#[test]
fn resolve_with_home_lands_under_documents() {
    assert_eq!(resolve_target(Some("/home/u"), "board.kicad"), "/home/u/Documents/board.kicad");
}

#[test]
fn resolve_with_home_keeps_relative_subdirs() {
    assert_eq!(resolve_target(Some("/home/u"), "projects/a.txt"), "/home/u/Documents/projects/a.txt");
}

#[test]
fn resolve_home_with_trailing_separator() {
    assert_eq!(resolve_target(Some("/home/u/"), "f.txt"), "/home/u/Documents/f.txt");
}

#[test]
fn resolve_without_home_uses_literal_path() {
    assert_eq!(resolve_target(None, "notes/f.txt"), "notes/f.txt");
    assert_eq!(resolve_target(None, "/var/data/f.txt"), "/var/data/f.txt");
}

#[test]
fn resolve_absolute_request_replaces_base() {
    assert_eq!(resolve_target(Some("/home/u"), "/tmp/out.bin"), "/tmp/out.bin");
}

#[test]
fn join_inserts_single_separator() {
    assert_eq!(join_path("a", "b"), "a/b");
    assert_eq!(join_path("a/", "b"), "a/b");
    assert_eq!(join_path("a", "/b"), "/b");
}

#[test]
fn plan_with_home_ensures_documents_dir() {
    let p = plan_save(Some("/home/u"), "f.txt");
    assert_eq!(p.ensure_dir.as_deref(), Some("/home/u/Documents"));
    assert_eq!(p.target, "/home/u/Documents/f.txt");
    assert_eq!(p.on_mkdir_failure, MkdirFailurePolicy::Ignore);
}

#[test]
fn plan_without_home_creates_no_dir() {
    let p = plan_save(None, "f.txt");
    assert!(p.ensure_dir.is_none());
    assert_eq!(p.target, "f.txt");
    assert_eq!(p.on_mkdir_failure, MkdirFailurePolicy::Ignore);
}
