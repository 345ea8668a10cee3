use ephemeral::builder::{GenericBuilder, RustBuilder};
use ephemeral::rust_tools::{Edition, Manifest};
use ephemeral::{Action, Dir};

fn dir(p: &str) -> Action {
    Action::CreateDirAll(p.to_string())
}

fn write(p: &str, c: &[u8]) -> Action {
    Action::WriteFile(p.to_string(), c.to_vec())
}

#[test]
fn rust_builder_creates_rust_project() {
    let config = Manifest::try_from(
        "foo",
        "0.1.0",
        &["foo <foo@bar.com>"],
        Some(Edition::Edition2018),
        None,
    )
    .unwrap();
    let project = RustBuilder::new("foo")
        .add_cargo_toml(config)
        .unwrap()
        .into_project();
    let plan = project.plan();
    assert_eq!(plan.len(), 2);
    assert_eq!(plan[0], dir("foo"));
    let text = "[package]\nname = \"foo\"\nversion = \"0.1.0\"\nauthors = [\"foo <foo@bar.com>\"]\nedition = \"2018\"\n";
    assert_eq!(plan[1], write("foo/Cargo.toml", text.as_bytes()));
}

#[test]
fn project_empty_build_creates_dir() {
    let project = GenericBuilder::new("tmp").into_project();
    assert_eq!(project.plan(), vec![dir("tmp")]);
    assert_eq!(project.teardown_path(), "tmp");
}

#[test]
fn project_with_dir_and_files_works() {
    let project = GenericBuilder::new("tmp2")
        .add_dir(Dir::new("tmp2/foo").add_file("bar", &vec![101u8]))
        .into_project();
    assert_eq!(
        project.plan(),
        vec![dir("tmp2"), dir("tmp2/foo"), write("tmp2/foo/bar", &[0x65])]
    );
    assert_eq!(project.teardown_path(), "tmp2");
}

#[test]
fn root_dir_stays_first_after_adding_dirs() {
    let b = GenericBuilder::new("root")
        .add_dir(Dir::new("other"))
        .add_dir(Dir::new("root/a"));
    let dirs = b.project().dirs();
    assert_eq!(dirs.len(), 3);
    assert_eq!(dirs[0].path, "root");
    assert_eq!(dirs[1].path, "other");
    assert_eq!(b.project().teardown_path(), "root");
}

#[test]
fn plan_lists_every_dir_then_its_files() {
    let project = GenericBuilder::new("r")
        .add_dir(Dir::new("r/a").add_file("x", b"one").add_file("y", b""))
        .add_dir(Dir::new("r/b").add_file("z", &[0, 255]))
        .into_project();
    assert_eq!(
        project.plan(),
        vec![
            dir("r"),
            dir("r/a"),
            write("r/a/x", b"one"),
            write("r/a/y", b""),
            dir("r/b"),
            write("r/b/z", &[0, 255]),
        ]
    );
}

#[test]
fn cargo_toml_goes_to_root_dir_even_after_other_dirs() {
    let project = RustBuilder::new("pkg")
        .add_dir(Dir::new("pkg/src").add_file("lib.rs", b"x"))
        .add_cargo_toml(Manifest::default())
        .unwrap()
        .into_project();
    let text = "[package]\nname = \"\"\nversion = \"0.0.0\"\nauthors = []\nedition = \"2018\"\n";
    assert_eq!(
        project.plan(),
        vec![
            dir("pkg"),
            write("pkg/Cargo.toml", text.as_bytes()),
            dir("pkg/src"),
            write("pkg/src/lib.rs", b"x"),
        ]
    );
}

#[test]
fn edition_after_attaching_leaves_rendered_file() {
    let b = RustBuilder::new("e")
        .add_cargo_toml(Manifest::default())
        .unwrap()
        .edition(Edition::Edition2015);
    let plan = b.project().plan();
    match &plan[1] {
        Action::WriteFile(p, c) => {
            assert_eq!(p, "e/Cargo.toml");
            let text = String::from_utf8(c.clone()).unwrap();
            assert!(text.contains("edition = \"2018\""));
        }
        other => panic!("unexpected action {:?}", other),
    }
}
