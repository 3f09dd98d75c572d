//! One project session: the discovered packages, their manifest
//! document trees, the version-bump operations on them, and the
//! rendering of every document back to text.

use vstd::prelude::*;
use vstd::string::StringExecFns;
use crate::codec::{import_text, export_text, export_spec, text_imports_to, toml_parses, toml_text_of};
use crate::doc::{Node, find_key, version_str, bumped_doc};
use crate::errors::{io_error_other, LoadError, PersistError};
use crate::version::{Version, Level, parse_semver, semver_triple, can_bump, bumped, version_seq};

verus! {

/// The identity of one workspace member: its declared name, its unique
/// id, and the path of its manifest file.
pub struct PackageInfo {
    /// The declared package name; not necessarily unique.
    pub name: String,
    /// A unique identifier for the package.
    pub id: String,
    /// Where the package's manifest file lives.
    pub manifest_path: String,
}

impl Clone for PackageInfo {
    fn clone(&self) -> (r: Self)
        ensures
            r == *self,
    {
        PackageInfo {
            name: self.name.clone(),
            id: self.id.clone(),
            manifest_path: self.manifest_path.clone(),
        }
    }
}

/// Meta-information of a project workspace: the member packages in
/// discovery order, and one manifest document tree per member.
pub struct Metadata {
    /// The member packages, in discovery order, immutable after
    /// construction.
    pub packages: Vec<PackageInfo>,
    /// The manifest document of `packages[i]` is `docs[i]`.
    pub docs: Vec<Node>,
}

/// The index of the first package of `ps` whose name reads `name`, or
/// `-1` where none does.
pub open spec fn spec_find_package(ps: Seq<PackageInfo>, name: Seq<char>) -> int
    decreases ps.len(),
{
    if ps.len() == 0 {
        -1
    } else if ps[0].name@ == name {
        0
    } else {
        let r = spec_find_package(ps.drop_first(), name);
        if r == -1 {
            -1
        } else {
            r + 1
        }
    }
}

/// A package find over a sequence whose entry `i` carries the name,
/// with no earlier entry carrying it, resolves to `i`.
proof fn lemma_find_package_at(ps: Seq<PackageInfo>, name: Seq<char>, i: int)
    requires
        0 <= i < ps.len(),
        ps[i].name@ == name,
        forall|j: int| 0 <= j < i ==> ps[j].name@ != name,
    ensures
        spec_find_package(ps, name) == i,
    decreases i,
{
    if i > 0 {
        lemma_find_package_at(ps.drop_first(), name, i - 1);
    }
}

/// A package find over a sequence none of whose entries carries the
/// name resolves to `-1`.
proof fn lemma_find_package_none(ps: Seq<PackageInfo>, name: Seq<char>)
    requires
        forall|j: int| 0 <= j < ps.len() ==> ps[j].name@ != name,
    ensures
        spec_find_package(ps, name) == -1,
    decreases ps.len(),
{
    if ps.len() > 0 {
        lemma_find_package_none(ps.drop_first(), name);
    }
}

/// The version that a bump at `level` of a version string yields: the
/// string must parse as a semantic version and the bumped component
/// must be below its machine limit.
pub open spec fn str_new_version(s: Seq<char>, level: Level) -> Option<Version> {
    match semver_triple(s) {
        Some(t) => if can_bump(t, level) {
            Some(bumped(t, level))
        } else {
            None
        },
        None => None,
    }
}

/// The version that a bump at `level` of this document yields, or
/// nothing where the document has no well-formed `package.version`
/// string or the bump would overflow.
pub open spec fn doc_new_version(d: Node, level: Level) -> Option<Version> {
    match version_str(d) {
        Some(s) => str_new_version(s, level),
        None => None,
    }
}

/// One document after a bump attempt at `level`: rewritten in place
/// where the bump yields a version, untouched otherwise.
pub open spec fn doc_bumped(d0: Node, d1: Node, level: Level) -> bool {
    match doc_new_version(d0, level) {
        Some(v) => bumped_doc(d0, d1, version_seq(v)),
        None => d1 == d0,
    }
}

/// A whole session before and after one named bump at `level` that
/// answered `r`: the first package of the given name has its document
/// bumped, every other document and the package list are untouched,
/// and `r` carries the new version exactly where the bump happened.
pub open spec fn bump_rel(
    m0: Metadata,
    m1: Metadata,
    name: Seq<char>,
    level: Level,
    r: Option<Version>,
) -> bool {
    let i = spec_find_package(m0.packages@, name);
    if i == -1 || i >= m0.docs@.len() {
        &&& r is None
        &&& m1 == m0
    } else {
        &&& m1.packages == m0.packages
        &&& m1.docs@.len() == m0.docs@.len()
        &&& forall|j: int| 0 <= j < m0.docs@.len() && j != i ==> m1.docs@[j] == m0.docs@[j]
        &&& doc_bumped(m0.docs@[i], m1.docs@[i], level)
        &&& r == doc_new_version(m0.docs@[i], level)
    }
}

/// A bump of a name that no package carries answers nothing and leaves
/// the whole session as it stood.
pub proof fn lemma_bump_unknown_name(
    m0: Metadata,
    m1: Metadata,
    name: Seq<char>,
    level: Level,
    r: Option<Version>,
)
    requires
        bump_rel(m0, m1, name, level, r),
        forall|j: int| 0 <= j < m0.packages@.len() ==> m0.packages@[j].name@ != name,
    ensures
        r is None,
        m1 == m0,
{
    lemma_find_package_none(m0.packages@, name);
}

/// A document without a well-formed `package.version` string comes out
/// of a bump attempt exactly as it went in.
pub proof fn lemma_unversioned_doc_untouched(d0: Node, d1: Node, level: Level)
    requires
        doc_bumped(d0, d1, level),
        version_str(d0) is None,
    ensures
        d1 == d0,
{
}

/// A bump of a name that the package at `a` carries first touches the
/// document of `a` alone: every other document is handed back as it
/// stood, and the answer is exactly what that one document yields.
pub proof fn lemma_bump_first_match(
    m0: Metadata,
    m1: Metadata,
    name: Seq<char>,
    level: Level,
    r: Option<Version>,
    a: int,
)
    requires
        bump_rel(m0, m1, name, level, r),
        0 <= a < m0.packages@.len(),
        a < m0.docs@.len(),
        m0.packages@[a].name@ == name,
        forall|j: int| 0 <= j < a ==> m0.packages@[j].name@ != name,
    ensures
        m1.packages == m0.packages,
        m1.docs@.len() == m0.docs@.len(),
        doc_bumped(m0.docs@[a], m1.docs@[a], level),
        r == doc_new_version(m0.docs@[a], level),
        forall|j: int| 0 <= j < m0.docs@.len() && j != a ==> m1.docs@[j] == m0.docs@[j],
{
    lemma_find_package_at(m0.packages@, name, a);
}

impl Metadata {
    /// The two collections pair up: one document per package.
    pub open spec fn wf(self) -> bool {
        self.docs@.len() == self.packages@.len()
    }

    /// Build a session from the discovered packages, each paired with
    /// the text of its manifest.  Every manifest must parse; the first
    /// that does not aborts the construction with its parser message.
    pub fn new(loaded: Vec<(PackageInfo, String)>) -> (r: Result<Metadata, LoadError>)
        ensures
            match r {
                Ok(m) => {
                    &&& m.wf()
                    &&& m.packages@.len() == loaded@.len()
                    &&& forall|i: int| 0 <= i < loaded@.len() ==> m.packages@[i] == loaded@[i].0
                    &&& forall|i: int| 0 <= i < loaded@.len() ==> toml_parses(loaded@[i].1@)
                    &&& forall|i: int|
                        0 <= i < loaded@.len() ==> text_imports_to(loaded@[i].1@, m.docs@[i])
                },
                Err(_) => exists|i: int|
                    0 <= i < loaded@.len() && !toml_parses(loaded@[i].1@),
            },
    {
        let n = loaded.len();
        let mut packages: Vec<PackageInfo> = Vec::new();
        let mut docs: Vec<Node> = Vec::new();
        let mut i: usize = 0;
        while i < n
            invariant
                n == loaded@.len(),
                i <= n,
                packages@.len() == i,
                docs@.len() == i,
                forall|j: int| 0 <= j < i ==> packages@[j] == loaded@[j].0,
                forall|j: int| 0 <= j < i ==> toml_parses(loaded@[j].1@),
                forall|j: int| 0 <= j < i ==> text_imports_to(loaded@[j].1@, docs@[j]),
            decreases n - i,
        {
            match import_text(loaded[i].1.as_str()) {
                Ok(d) => {
                    docs.push(d);
                    packages.push(loaded[i].0.clone());
                },
                Err(e) => {
                    return Err(io_error_other(e));
                },
            }
            i += 1;
        }
        Ok(Metadata { packages, docs })
    }

    /// The index of the first package with the given name, in discovery
    /// order.
    fn package_index(&self, name: &str) -> (r: Option<usize>)
        ensures
            match r {
                Some(i) => i as int == spec_find_package(self.packages@, name@) && i
                    < self.packages@.len(),
                None => spec_find_package(self.packages@, name@) == -1,
            },
    {
        let needle = name.to_owned();
        let n = self.packages.len();
        let mut i: usize = 0;
        while i < n
            invariant
                n == self.packages@.len(),
                i <= n,
                needle@ == name@,
                forall|j: int| 0 <= j < i ==> self.packages@[j].name@ != name@,
            decreases n - i,
        {
            if self.packages[i].name == needle {
                proof {
                    lemma_find_package_at(self.packages@, name@, i as int);
                }
                return Some(i);
            }
            i += 1;
        }
        proof {
            lemma_find_package_none(self.packages@, name@);
        }
        None
    }

    /// Parse a version string and advance it at `bump`, by the
    /// semantic-versioning reset rules; the write-back is the caller's.
    fn bump_text(s: &str, bump: Level) -> (r: Option<Version>)
        ensures
            r == str_new_version(s@, bump),
    {
        let t = match parse_semver(s) {
            Some(t) => t,
            None => {
                return None;
            },
        };
        let mut ver = Version { major: t.0, minor: t.1, patch: t.2 };
        match bump {
            Level::Major => {
                if ver.major == u64::MAX {
                    return None;
                }
                ver.increment_major();
            },
            Level::Minor => {
                if ver.minor == u64::MAX {
                    return None;
                }
                ver.increment_minor();
            },
            Level::Patch => {
                if ver.patch == u64::MAX {
                    return None;
                }
                ver.increment_patch();
            },
        }
        Some(ver)
    }

    /// Bump one document at `bump` in place: descend to the string at
    /// `package.version`, parse it, advance it, and write the new text
    /// back into the same node.  A document without a well-formed
    /// version string is left completely untouched.
    fn bump_doc(doc: &mut Node, bump: Level) -> (r: Option<Version>)
        ensures
            doc_bumped(*old(doc), *final(doc), bump),
            r == doc_new_version(*old(doc), bump),
    {
        match doc {
            Node::Table(es) => {
                let p = match find_key(es, "package") {
                    Some(p) => p,
                    None => {
                        return None;
                    },
                };
                let (q, ver) = match &es[p].1 {
                    Node::Table(ps) => {
                        let q = match find_key(ps, "version") {
                            Some(q) => q,
                            None => {
                                return None;
                            },
                        };
                        match &ps[q].1 {
                            Node::Str(s) => {
                                match Self::bump_text(s.as_str(), bump) {
                                    Some(ver) => (q, ver),
                                    None => {
                                        return None;
                                    },
                                }
                            },
                            _ => {
                                return None;
                            },
                        }
                    },
                    _ => {
                        return None;
                    },
                };
                let text = ver.to_text();
                match &mut es[p].1 {
                    Node::Table(ps) => {
                        match &mut ps[q].1 {
                            Node::Str(s) => {
                                *s = text;
                            },
                            _ => {
                                assert(false);
                            },
                        }
                    },
                    _ => {
                        assert(false);
                    },
                }
                Some(ver)
            },
            _ => None,
        }
    }

    /// Bump the version of the first package with the given name, at
    /// the given level.  Return the new version, or nothing — with no
    /// document touched — where the name is unknown or the package has
    /// no well-formed version string.
    fn bump_version_inner(&mut self, name: &str, bump: Level) -> (r: Option<Version>)
        ensures
            bump_rel(*old(self), *final(self), name@, bump, r),
    {
        let i = match self.package_index(name) {
            Some(i) => i,
            None => {
                return None;
            },
        };
        if i >= self.docs.len() {
            return None;
        }
        Self::bump_doc(&mut self.docs[i], bump)
    }

    /// Bump the patch version of the package with the given name.
    /// Return the new version.
    pub fn bump_patch_version(&mut self, name: &str) -> (r: Option<Version>)
        ensures
            bump_rel(*old(self), *final(self), name@, Level::Patch, r),
    {
        self.bump_version_inner(name, Level::Patch)
    }

    /// Bump the minor version of the package with the given name.
    /// Return the new version.
    pub fn bump_minor_version(&mut self, name: &str) -> (r: Option<Version>)
        ensures
            bump_rel(*old(self), *final(self), name@, Level::Minor, r),
    {
        self.bump_version_inner(name, Level::Minor)
    }

    /// Bump the major version of the package with the given name.
    /// Return the new version.
    pub fn bump_major_version(&mut self, name: &str) -> (r: Option<Version>)
        ensures
            bump_rel(*old(self), *final(self), name@, Level::Major, r),
    {
        self.bump_version_inner(name, Level::Major)
    }

    /// Bump the patch version of all packages.  Every document with a
    /// well-formed `package.version` string is bumped; the rest are
    /// left untouched.
    #[verifier::loop_isolation(false)]
    pub fn bump_all_patch_versions(&mut self)
        ensures
            final(self).packages == old(self).packages,
            final(self).docs@.len() == old(self).docs@.len(),
            forall|i: int|
                0 <= i < old(self).docs@.len() ==> doc_bumped(
                    old(self).docs@[i],
                    final(self).docs@[i],
                    Level::Patch,
                ),
    {
        let n = self.docs.len();
        let mut i: usize = 0;
        while i < n
            invariant
                i <= n,
                self.docs@.len() == n,
                self.packages == old(self).packages,
                forall|j: int|
                    0 <= j < i ==> doc_bumped(old(self).docs@[j], self.docs@[j], Level::Patch),
                forall|j: int| i <= j < n ==> self.docs@[j] == old(self).docs@[j],
            decreases n - i,
        {
            let _r = Self::bump_doc(&mut self.docs[i], Level::Patch);
            i += 1;
        }
    }

    /// Render every document back to manifest text, paired with the
    /// manifest path it came from, in package order.  The first
    /// document the serializer rejects aborts the rendering with its
    /// message.
    pub fn render_all(&self) -> (r: Result<Vec<(String, String)>, PersistError>)
        ensures
            match r {
                Ok(out) => {
                    &&& out@.len() == self.packages@.len()
                    &&& self.packages@.len() <= self.docs@.len()
                    &&& forall|i: int|
                        0 <= i < out@.len() ==> out@[i].0 == self.packages@[i].manifest_path
                    &&& forall|i: int|
                        0 <= i < out@.len() ==> Some(out@[i].1@) == toml_text_of(
                            export_spec(self.docs@[i]),
                        )
                },
                Err(_) => self.packages@.len() > self.docs@.len() || exists|i: int|
                    0 <= i < self.packages@.len() && toml_text_of(export_spec(self.docs@[i]))
                        is None,
            },
            self.packages@.len() > self.docs@.len() ==> r is Err,
    {
        let n = self.packages.len();
        let mut out: Vec<(String, String)> = Vec::new();
        let mut i: usize = 0;
        while i < n
            invariant
                n == self.packages@.len(),
                i <= n,
                i <= self.docs@.len(),
                out@.len() == i,
                forall|j: int| 0 <= j < i ==> out@[j].0 == self.packages@[j].manifest_path,
                forall|j: int|
                    0 <= j < i ==> Some(out@[j].1@) == toml_text_of(export_spec(self.docs@[j])),
            decreases n - i,
        {
            if i >= self.docs.len() {
                return Err(
                    PersistError { message: String::from_str("package without a document") },
                );
            }
            match export_text(&self.docs[i]) {
                Ok(text) => {
                    out.push((self.packages[i].manifest_path.clone(), text));
                },
                Err(e) => {
                    return Err(PersistError { message: e });
                },
            }
            i += 1;
        }
        Ok(out)
    }
}

} // verus!


