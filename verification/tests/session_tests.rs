use version_bump::doc::Node;
use version_bump::session::{Metadata, PackageInfo};
use version_bump::version::Version;

fn info(name: &str, id: &str, path: &str) -> PackageInfo {
    PackageInfo {
        name: name.to_string(),
        id: id.to_string(),
        manifest_path: path.to_string(),
    }
}

fn doc_with_version(version: Node) -> Node {
    Node::Table(vec![(
        "package".to_string(),
        Node::Table(vec![
            ("name".to_string(), Node::Str("whatever".to_string())),
            ("version".to_string(), version),
        ]),
    )])
}

fn version_of(doc: &Node) -> Option<&str> {
    let Node::Table(es) = doc else {
        return None;
    };
    let pkg = &es.iter().find(|e| e.0 == "package")?.1;
    let Node::Table(ps) = pkg else {
        return None;
    };
    let ver = &ps.iter().find(|e| e.0 == "version")?.1;
    match ver {
        Node::Str(s) => Some(s.as_str()),
        _ => None,
    }
}

#[test]
fn bump_patch_rewrites_the_version_node() {
    let mut m = Metadata {
        packages: vec![info("pkg", "id-0", "a/Cargo.toml")],
        docs: vec![doc_with_version(Node::Str("1.2.3".to_string()))],
    };
    let got = m.bump_patch_version("pkg");
    assert_eq!(got, Some(Version { major: 1, minor: 2, patch: 4 }));
    assert_eq!(version_of(&m.docs[0]), Some("1.2.4"));
}

#[test]
fn bump_minor_resets_patch_in_the_document() {
    let mut m = Metadata {
        packages: vec![info("pkg", "id-0", "a/Cargo.toml")],
        docs: vec![doc_with_version(Node::Str("1.2.3".to_string()))],
    };
    let got = m.bump_minor_version("pkg");
    assert_eq!(got, Some(Version { major: 1, minor: 3, patch: 0 }));
    assert_eq!(version_of(&m.docs[0]), Some("1.3.0"));
}

#[test]
fn bump_major_resets_minor_and_patch_in_the_document() {
    let mut m = Metadata {
        packages: vec![info("pkg", "id-0", "a/Cargo.toml")],
        docs: vec![doc_with_version(Node::Str("1.2.3".to_string()))],
    };
    let got = m.bump_major_version("pkg");
    assert_eq!(got, Some(Version { major: 2, minor: 0, patch: 0 }));
    assert_eq!(version_of(&m.docs[0]), Some("2.0.0"));
}

#[test]
fn bump_of_unknown_name_changes_nothing() {
    let mut m = Metadata {
        packages: vec![info("pkg", "id-0", "a/Cargo.toml")],
        docs: vec![doc_with_version(Node::Str("1.2.3".to_string()))],
    };
    let got = m.bump_patch_version("nonexistent-package");
    assert_eq!(got, None);
    assert_eq!(m.docs, vec![doc_with_version(Node::Str("1.2.3".to_string()))]);
}

#[test]
fn bump_without_version_field_changes_nothing() {
    let unversioned = Node::Table(vec![(
        "package".to_string(),
        Node::Table(vec![("name".to_string(), Node::Str("a".to_string()))]),
    )]);
    let mut m = Metadata {
        packages: vec![info("a", "id-0", "a/Cargo.toml"), info("b", "id-1", "b/Cargo.toml")],
        docs: vec![deep_copy(&unversioned), doc_with_version(Node::Str("0.2.0".to_string()))],
    };
    let got = m.bump_patch_version("a");
    assert_eq!(got, None);
    assert_eq!(m.docs[0], unversioned);
    // the other package is untouched by the miss and still bumps normally
    assert_eq!(version_of(&m.docs[1]), Some("0.2.0"));
    let got_b = m.bump_patch_version("b");
    assert_eq!(got_b, Some(Version { major: 0, minor: 2, patch: 1 }));
    assert_eq!(version_of(&m.docs[1]), Some("0.2.1"));
}

#[test]
fn bump_of_unparsable_version_changes_nothing() {
    let mut m = Metadata {
        packages: vec![info("pkg", "id-0", "a/Cargo.toml")],
        docs: vec![doc_with_version(Node::Str("not-a-version".to_string()))],
    };
    let got = m.bump_patch_version("pkg");
    assert_eq!(got, None);
    assert_eq!(version_of(&m.docs[0]), Some("not-a-version"));
}

#[test]
fn bump_at_machine_limit_changes_nothing() {
    let top = format!("1.2.{}", u64::MAX);
    let mut m = Metadata {
        packages: vec![info("pkg", "id-0", "a/Cargo.toml")],
        docs: vec![doc_with_version(Node::Str(top.clone()))],
    };
    let got = m.bump_patch_version("pkg");
    assert_eq!(got, None);
    assert_eq!(version_of(&m.docs[0]), Some(top.as_str()));
}

#[test]
fn bump_all_patch_skips_the_malformed_package() {
    let mut m = Metadata {
        packages: vec![
            info("a", "id-0", "a/Cargo.toml"),
            info("b", "id-1", "b/Cargo.toml"),
            info("c", "id-2", "c/Cargo.toml"),
        ],
        docs: vec![
            doc_with_version(Node::Str("1.0.0".to_string())),
            doc_with_version(Node::Int(3)),
            doc_with_version(Node::Str("0.9.1".to_string())),
        ],
    };
    m.bump_all_patch_versions();
    assert_eq!(version_of(&m.docs[0]), Some("1.0.1"));
    assert_eq!(m.docs[1], doc_with_version(Node::Int(3)));
    assert_eq!(version_of(&m.docs[2]), Some("0.9.2"));
}

#[test]
fn duplicate_name_bumps_only_the_first_match() {
    let mut m = Metadata {
        packages: vec![info("dup", "id-a", "a/Cargo.toml"), info("dup", "id-b", "b/Cargo.toml")],
        docs: vec![
            doc_with_version(Node::Str("0.1.0".to_string())),
            doc_with_version(Node::Str("5.0.0".to_string())),
        ],
    };
    let got = m.bump_patch_version("dup");
    assert_eq!(got, Some(Version { major: 0, minor: 1, patch: 1 }));
    assert_eq!(version_of(&m.docs[0]), Some("0.1.1"));
    assert_eq!(version_of(&m.docs[1]), Some("5.0.0"));
}

#[test]
fn render_fails_when_a_package_has_no_document() {
    let m = Metadata {
        packages: vec![info("pkg", "id-0", "a/Cargo.toml")],
        docs: vec![],
    };
    assert!(m.render_all().is_err());
}


fn deep_copy(n: &Node) -> Node {
    match n {
        Node::Str(s) => Node::Str(s.clone()),
        Node::Int(i) => Node::Int(*i),
        Node::Bool(b) => Node::Bool(*b),
        Node::Table(es) => Node::Table(es.iter().map(|(k, v)| (k.clone(), deep_copy(v))).collect()),
        Node::Opaque(t) => Node::Opaque(t.clone()),
    }
}
