use ephemeral::rust_tools::{Config, Edition, Manifest, ManifestError, Version};

fn v(text: &str) -> Version {
    Version::parse(text).unwrap()
}

#[test]
fn default_config_renders_default_values() {
    let m = Manifest::new(Config::default(), None);
    assert_eq!(
        m.to_toml(),
        "[package]\nname = \"\"\nversion = \"0.0.0\"\nauthors = []\nedition = \"2018\"\n"
    );
    let c = Config::default();
    assert_eq!(c.version.to_text(), "0.0.0");
    assert!(c.authors.is_empty());
    assert_eq!(c.edition, Edition::Edition2018);
}

#[test]
fn manifest_without_dependencies_has_no_dependency_table() {
    let m = Manifest::try_from(
        "foo",
        "0.1.0",
        &["foo <foo@bar.com>"],
        Some(Edition::Edition2018),
        None,
    )
    .unwrap();
    let text = m.to_toml();
    assert_eq!(
        text,
        "[package]\nname = \"foo\"\nversion = \"0.1.0\"\nauthors = [\"foo <foo@bar.com>\"]\nedition = \"2018\"\n"
    );
    assert!(!text.contains("[dependencies]"));
}

#[test]
fn dependencies_render_in_order_with_quoted_keys_where_needed() {
    let deps = vec![
        ("serde".to_string(), v("1.0.0")),
        ("my crate".to_string(), v("0.1.0-alpha.1+build.5")),
    ];
    let m = Manifest::try_from("p", "2.3.4", &["a", "b"], Some(Edition::Edition2015), Some(deps))
        .unwrap();
    assert_eq!(
        m.to_toml(),
        "[package]\nname = \"p\"\nversion = \"2.3.4\"\nauthors = [\"a\", \"b\"]\nedition = \"2015\"\n\n[dependencies]\nserde = \"1.0.0\"\n\"my crate\" = \"0.1.0-alpha.1+build.5\"\n"
    );
}

#[test]
fn empty_dependency_map_renders_empty_table() {
    let m = Manifest::try_from("p", "1.0.0", &[], None, Some(vec![])).unwrap();
    assert!(m.to_toml().ends_with("edition = \"2018\"\n\n[dependencies]\n"));
}

#[test]
fn strings_are_escaped() {
    let m = Manifest::try_from("a\"b\\c", "1.0.0", &["x\ny"], None, None).unwrap();
    let text = m.to_toml();
    assert!(text.contains("name = \"a\\\"b\\\\c\"\n"));
    assert!(text.contains("authors = [\"x\\ny\"]\n"));
}

#[test]
fn bad_version_is_an_error() {
    assert!(matches!(Version::parse("1.2"), Err(ManifestError::InvalidVersion(_))));
    assert!(matches!(Version::parse(""), Err(ManifestError::InvalidVersion(_))));
    assert!(matches!(
        Config::try_from("n", "x.y.z", &[], None),
        Err(ManifestError::InvalidVersion(_))
    ));
    assert!(matches!(
        Manifest::try_from("n", "01.0.0", &[], None, None),
        Err(ManifestError::InvalidVersion(_))
    ));
}

#[test]
fn version_parts_and_text() {
    let ver = v("10.200.3000-rc.1+sha.9");
    assert_eq!((ver.major, ver.minor, ver.patch), (10, 200, 3000));
    assert_eq!(ver.pre, "rc.1");
    assert_eq!(ver.build, "sha.9");
    assert_eq!(ver.to_text(), "10.200.3000-rc.1+sha.9");
    assert_eq!(v("1.2.3+b").to_text(), "1.2.3+b");
    assert_eq!(v("18446744073709551615.0.9").to_text(), "18446744073709551615.0.9");
}

#[test]
fn config_keeps_fields_and_defaults_edition() {
    let c = Config::try_from("n", "0.1.0", &["x", "y", "z"], None).unwrap();
    assert_eq!(c.name, "n");
    assert_eq!(c.authors, vec!["x", "y", "z"]);
    assert_eq!(c.edition, Edition::Edition2018);
    let c = Config::try_from("n", "0.1.0", &[], Some(Edition::Edition2015)).unwrap();
    assert_eq!(c.edition, Edition::Edition2015);
}

#[test]
fn edition_from_option_and_text() {
    assert_eq!(Edition::from(None), Edition::Edition2018);
    assert_eq!(Edition::from(Some(Edition::Edition2015)), Edition::Edition2015);
    assert_eq!(Edition::Edition2015.as_str(), "2015");
    assert_eq!(Edition::Edition2018.as_str(), "2018");
}
