use ephemeral::path::join;
use ephemeral::{Dir, File, Project};

#[test]
fn relative_file_path_is_joined_onto_dir() {
    let d = Dir::new("tmp2/foo").add_file("bar", &[1, 2]);
    assert_eq!(d.files().len(), 1);
    assert_eq!(d.files()[0].path, "tmp2/foo/bar");
    assert_eq!(d.files()[0].contents(), &[1, 2]);
}

#[test]
fn absolute_file_path_is_kept_outside_its_dir() {
    let d = Dir::new("tmp/foo").add_file("/elsewhere/x", b"q");
    assert_eq!(d.files()[0].path, "/elsewhere/x");
}

#[test]
fn join_adds_separator_only_where_needed() {
    assert_eq!(join("a", "b"), "a/b");
    assert_eq!(join("a/", "b"), "a/b");
    assert_eq!(join("", "b"), "b");
    assert_eq!(join("a", ""), "a/");
    assert_eq!(join("a", "/b"), "/b");
}

#[test]
fn new_project_has_only_root_dir() {
    let p = Project::new("x/y");
    assert_eq!(p.path, "x/y");
    assert_eq!(p.dirs().len(), 1);
    assert_eq!(p.dirs()[0].path, "x/y");
    assert!(p.dirs()[0].files().is_empty());
}

#[test]
fn file_new_keeps_path_and_bytes() {
    let f = File::new("a/b", &[7, 8, 9]);
    assert_eq!(f.path, "a/b");
    assert_eq!(f.contents(), &[7, 8, 9]);
}

#[test]
fn add_dir_appends_in_order() {
    let p = Project::new("r").add_dir(Dir::new("r/a")).add_dir(Dir::new("r/b"));
    let paths: Vec<&str> = p.dirs().iter().map(|d| d.path.as_str()).collect();
    assert_eq!(paths, vec!["r", "r/a", "r/b"]);
}
