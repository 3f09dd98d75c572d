//! The generic document tree that holds one package manifest, and the
//! lookup of nested fields inside it.
//!
//! A manifest is an untyped tree of tables and scalar values.  Only the
//! path `package.version` is ever read or written; everything else is
//! opaque payload that must survive a load and a later rendering
//! unmodified.  Content that the mutator never looks at — arrays,
//! floats, datetimes, tables nested too deeply — is carried through in
//! its original parsed form by the `Opaque` variant.

use vstd::prelude::*;

verus! {

/// One node of a manifest document tree.
///
/// A table keeps its entries in order; a key lookup resolves to the
/// first entry that carries the key.
#[derive(Debug, PartialEq)]
pub enum Node {
    /// A string scalar.
    Str(String),
    /// An integer scalar.
    Int(i64),
    /// A boolean scalar.
    Bool(bool),
    /// A table of keyed entries.
    Table(Vec<(String, Node)>),
    /// Content the mutator never reads, kept in its parsed form.
    Opaque(toml::Value),
}

/// The key under which a manifest holds its package section.
pub open spec fn pkg_key() -> Seq<char> {
    "package"@
}

/// The key under which a package section holds its version.
pub open spec fn ver_key() -> Seq<char> {
    "version"@
}

/// The index of the first entry of `es` whose key reads `k`, or `-1`
/// where no entry does.
pub open spec fn spec_find(es: Seq<(String, Node)>, k: Seq<char>) -> int
    decreases es.len(),
{
    if es.len() == 0 {
        -1
    } else if es[0].0@ == k {
        0
    } else {
        let r = spec_find(es.drop_first(), k);
        if r == -1 {
            -1
        } else {
            r + 1
        }
    }
}

/// A find over a sequence whose entry `i` carries the key, with no
/// earlier entry carrying it, resolves to `i`.
proof fn lemma_spec_find_at(es: Seq<(String, Node)>, k: Seq<char>, i: int)
    requires
        0 <= i < es.len(),
        es[i].0@ == k,
        forall|j: int| 0 <= j < i ==> es[j].0@ != k,
    ensures
        spec_find(es, k) == i,
    decreases i,
{
    if i > 0 {
        lemma_spec_find_at(es.drop_first(), k, i - 1);
    }
}

/// A find over a sequence none of whose entries carries the key
/// resolves to `-1`.
proof fn lemma_spec_find_none(es: Seq<(String, Node)>, k: Seq<char>)
    requires
        forall|j: int| 0 <= j < es.len() ==> es[j].0@ != k,
    ensures
        spec_find(es, k) == -1,
    decreases es.len(),
{
    if es.len() > 0 {
        lemma_spec_find_none(es.drop_first(), k);
    }
}

/// Find the first entry of `es` whose key equals `key`.
pub(crate) fn find_key(es: &Vec<(String, Node)>, key: &str) -> (r: Option<usize>)
    ensures
        match r {
            Some(i) => i as int == spec_find(es@, key@) && i < es@.len() && es@[i as int].0@
                == key@,
            None => spec_find(es@, key@) == -1,
        },
{
    let k = key.to_owned();
    let n = es.len();
    let mut i: usize = 0;
    while i < n
        invariant
            n == es@.len(),
            i <= n,
            k@ == key@,
            forall|j: int| 0 <= j < i ==> es@[j].0@ != key@,
        decreases n - i,
    {
        if es[i].0 == k {
            proof {
                lemma_spec_find_at(es@, key@, i as int);
            }
            return Some(i);
        }
        i += 1;
    }
    proof {
        lemma_spec_find_none(es@, key@);
    }
    None
}

/// The string found at `package.version` in the document, if the
/// document is a table whose first `package` entry is a table whose
/// first `version` entry is a string.
pub open spec fn version_str(doc: Node) -> Option<Seq<char>> {
    match doc {
        Node::Table(es) => {
            let p = spec_find(es@, pkg_key());
            if p == -1 {
                None
            } else {
                match es@[p].1 {
                    Node::Table(ps) => {
                        let q = spec_find(ps@, ver_key());
                        if q == -1 {
                            None
                        } else {
                            match ps@[q].1 {
                                Node::Str(s) => Some(s@),
                                _ => None,
                            }
                        }
                    },
                    _ => None,
                }
            }
        },
        _ => None,
    }
}

/// How a document looks after its `package.version` string was replaced
/// by a string that reads `s`: every entry other than the first
/// `package` entry is unchanged, and inside that entry's table every
/// entry other than the first `version` entry is unchanged; the version
/// entry keeps its key and holds a string reading `s` in place of the
/// old string.
pub open spec fn bumped_doc(d0: Node, d1: Node, s: Seq<char>) -> bool {
    match (d0, d1) {
        (Node::Table(es0), Node::Table(es1)) => {
            let p = spec_find(es0@, pkg_key());
            &&& 0 <= p < es0@.len()
            &&& es1@.len() == es0@.len()
            &&& forall|j: int| 0 <= j < es0@.len() && j != p ==> es1@[j] == es0@[j]
            &&& es1@[p].0 == es0@[p].0
            &&& match (es0@[p].1, es1@[p].1) {
                (Node::Table(ps0), Node::Table(ps1)) => {
                    let q = spec_find(ps0@, ver_key());
                    &&& 0 <= q < ps0@.len()
                    &&& ps1@.len() == ps0@.len()
                    &&& forall|j: int| 0 <= j < ps0@.len() && j != q ==> ps1@[j] == ps0@[j]
                    &&& ps1@[q].0 == ps0@[q].0
                    &&& ps0@[q].1 is Str
                    &&& match ps1@[q].1 {
                        Node::Str(ns) => ns@ == s,
                        _ => false,
                    }
                },
                _ => false,
            }
        },
        _ => false,
    }
}

} // verus!
