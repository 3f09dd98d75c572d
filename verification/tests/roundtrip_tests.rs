use version_bump::session::{Metadata, PackageInfo};
use version_bump::version::Version;

fn info(name: &str, id: &str, path: &str) -> PackageInfo {
    PackageInfo {
        name: name.to_string(),
        id: id.to_string(),
        manifest_path: path.to_string(),
    }
}

const MANIFEST_A: &str = r#"
[package]
name = "alpha"
version = "0.3.7"
edition = "2021"
keywords = ["one", "two"]
threshold = 2.5
released = 2024-05-01

[dependencies]
beta = { path = "../beta" }

[profile.release.build-override]
opt-level = 3
debug = false
"#;

const MANIFEST_B: &str = r#"
[package]
name = "beta"
version = "1.0.0"

[lib]
crate-type = ["rlib"]
"#;

#[test]
fn load_then_render_reparses_to_the_same_tree() {
    let m = Metadata::new(vec![
        (info("alpha", "id-a", "alpha/Cargo.toml"), MANIFEST_A.to_string()),
        (info("beta", "id-b", "beta/Cargo.toml"), MANIFEST_B.to_string()),
    ])
    .unwrap();
    let rendered = m.render_all().unwrap();
    assert_eq!(rendered.len(), 2);
    assert_eq!(rendered[0].0, "alpha/Cargo.toml");
    assert_eq!(rendered[1].0, "beta/Cargo.toml");
    for (original, (_, text)) in [MANIFEST_A, MANIFEST_B].iter().zip(rendered.iter()) {
        let before: toml::Table = original.parse().unwrap();
        let after: toml::Table = text.parse().unwrap();
        assert_eq!(before, after);
    }
}

#[test]
fn load_fails_on_a_manifest_that_does_not_parse() {
    let r = Metadata::new(vec![
        (info("alpha", "id-a", "alpha/Cargo.toml"), MANIFEST_A.to_string()),
        (info("broken", "id-x", "broken/Cargo.toml"), "= this is not toml".to_string()),
    ]);
    assert!(r.is_err());
}

#[test]
fn bump_minor_survives_a_render_and_reload() {
    let manifest = "[package]\nname = \"pkg\"\nversion = \"1.2.3\"\n";
    let mut m = Metadata::new(vec![(
        info("pkg", "id-0", "pkg/Cargo.toml"),
        manifest.to_string(),
    )])
    .unwrap();
    let got = m.bump_minor_version("pkg");
    assert_eq!(got, Some(Version { major: 1, minor: 3, patch: 0 }));
    let rendered = m.render_all().unwrap();
    assert_eq!(rendered[0].0, "pkg/Cargo.toml");
    let reloaded: toml::Table = rendered[0].1.parse().unwrap();
    assert_eq!(
        reloaded["package"]["version"].as_str(),
        Some("1.3.0"),
    );
    assert_eq!(reloaded["package"]["name"].as_str(), Some("pkg"));
}

#[test]
fn deep_nesting_survives_a_round_trip() {
    let mut text = String::from("[package]\nname = \"deep\"\nversion = \"0.1.0\"\n");
    let mut key = String::from("a");
    for _ in 0..24 {
        text.push_str(&format!("[{key}]\nmark = 1\n"));
        key.push_str(".a");
    }
    let mut m = Metadata::new(vec![(
        info("deep", "id-d", "deep/Cargo.toml"),
        text.clone(),
    )])
    .unwrap();
    assert_eq!(
        m.bump_patch_version("deep"),
        Some(Version { major: 0, minor: 1, patch: 1 }),
    );
    let rendered = m.render_all().unwrap();
    let before: toml::Table = text.parse().unwrap();
    let after: toml::Table = rendered[0].1.parse().unwrap();
    assert_eq!(after["package"]["version"].as_str(), Some("0.1.1"));
    // everything but the version reads back as it was loaded
    let mut before = before;
    before["package"]["version"] = toml::Value::String("0.1.1".to_string());
    assert_eq!(before, after);
}

#[test]
fn empty_workspace_loads_and_renders_nothing() {
    let mut m = Metadata::new(vec![]).unwrap();
    m.bump_all_patch_versions();
    assert!(m.bump_patch_version("anything").is_none());
    assert_eq!(m.render_all().unwrap(), vec![]);
}

#[test]
fn pre_release_version_bumps_to_the_bare_triple() {
    let manifest = "[package]\nname = \"pkg\"\nversion = \"1.2.3-alpha.1\"\n";
    let mut m = Metadata::new(vec![(
        info("pkg", "id-0", "pkg/Cargo.toml"),
        manifest.to_string(),
    )])
    .unwrap();
    let got = m.bump_patch_version("pkg");
    assert_eq!(got, Some(Version { major: 1, minor: 2, patch: 4 }));
    let rendered = m.render_all().unwrap();
    let reloaded: toml::Table = rendered[0].1.parse().unwrap();
    assert_eq!(reloaded["package"]["version"].as_str(), Some("1.2.4"));
}

#[test]
fn non_string_version_field_is_left_alone() {
    let manifest = "[package]\nname = \"pkg\"\nversion = 1.25\n";
    let mut m = Metadata::new(vec![(
        info("pkg", "id-0", "pkg/Cargo.toml"),
        manifest.to_string(),
    )])
    .unwrap();
    assert_eq!(m.bump_patch_version("pkg"), None);
    let rendered = m.render_all().unwrap();
    let reloaded: toml::Table = rendered[0].1.parse().unwrap();
    assert_eq!(reloaded["package"]["version"].as_float(), Some(1.25));
}

#[test]
fn zero_version_bumps_cleanly() {
    let manifest = "[package]\nname = \"pkg\"\nversion = \"0.0.0\"\n";
    let mut m = Metadata::new(vec![(
        info("pkg", "id-0", "pkg/Cargo.toml"),
        manifest.to_string(),
    )])
    .unwrap();
    assert_eq!(m.bump_patch_version("pkg"), Some(Version { major: 0, minor: 0, patch: 1 }));
    assert_eq!(m.bump_minor_version("pkg"), Some(Version { major: 0, minor: 1, patch: 0 }));
    assert_eq!(m.bump_major_version("pkg"), Some(Version { major: 1, minor: 0, patch: 0 }));
}
