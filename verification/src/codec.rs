//! The boundary to the toml crate: parsing manifest text into a
//! document tree, and rendering a tree back to text.
//!
//! The toml crate's own value type is opaque here.  A parsed value is
//! taken apart one level at a time and rebuilt the same way, so that
//! the tree walked by the rest of the library is the crate's own
//! [`Node`](crate::doc::Node); whatever is not taken apart rides
//! along unchanged inside `Node::Opaque`.
//!
//! Each outside call is trusted only for what its name states: the
//! parsed document of a text (`toml_doc_of`), the one-level split of a
//! parsed value (`toml_shallow`), the parsed value a scalar or a table
//! of entries constructs (`toml_str_node` and kin), and the rendered
//! text of a value (`toml_text_of`).  Everything between those names —
//! the descent, the rebuild, the pairing of texts with documents — is
//! verified.

use vstd::prelude::*;
use crate::doc::Node;

verus! {

/// The toml crate's generic value type, carried opaquely through the
/// document tree.
#[verifier::external_type_specification]
#[verifier::external_body]
pub struct ExTomlValue(toml::Value);

/// What the toml document parser yields on a given text: the parsed
/// value, or nothing where the text is not a toml document.
pub uninterp spec fn toml_doc_of(s: Seq<char>) -> Option<toml::Value>;

/// Whether a text parses as a toml document.
pub open spec fn toml_parses(s: Seq<char>) -> bool {
    toml_doc_of(s) is Some
}

/// What taking one parsed toml value apart one level deep yields: each
/// variant maps to the matching tree node, a table to its entries in
/// order with every child still wrapped.
pub uninterp spec fn toml_shallow(t: toml::Value) -> Node;

/// The parsed value that a string scalar constructs.
pub uninterp spec fn toml_str_node(s: Seq<char>) -> toml::Value;

/// The parsed value that an integer scalar constructs.
pub uninterp spec fn toml_int_node(i: i64) -> toml::Value;

/// The parsed value that a boolean scalar constructs.
pub uninterp spec fn toml_bool_node(b: bool) -> toml::Value;

/// The parsed value that a table with the given entries constructs,
/// an entry per distinct key.
pub uninterp spec fn toml_table_node(entries: Seq<(Seq<char>, toml::Value)>) -> toml::Value;

/// What the toml serializer yields on a given value: the rendered
/// document text, or nothing where the serializer rejects the value.
pub uninterp spec fn toml_text_of(v: toml::Value) -> Option<Seq<char>>;

/// Wrap a parsed toml value so that a table entry can hold it.
pub(crate) fn wrap_opaque(t: toml::Value) -> (r: Node)
    ensures
        r == Node::Opaque(t),
{
    Node::Opaque(t)
}

/// Relies on the toml crate's document parser (`str::parse::<toml::Table>`):
/// the result depends on the text alone; a parsed document is a table.
/// The error case hands back the parser's message.
#[verifier::external_body]
pub(crate) fn parse_toml(text: &str) -> (r: Result<toml::Value, String>)
    ensures
        r is Ok <==> toml_parses(text@),
        r matches Ok(t) ==> Some(t) == toml_doc_of(text@),
{
    match text.parse::<toml::Table>() {
        Ok(t) => Ok(toml::Value::Table(t)),
        Err(e) => Err(e.to_string()),
    }
}

/// Relies on `toml::to_string`: the rendered text depends on the value
/// alone.  The error case hands back the serializer's message.
#[verifier::external_body]
pub(crate) fn toml_to_text(v: &toml::Value) -> (r: Result<String, String>)
    ensures
        r is Ok <==> toml_text_of(*v) is Some,
        r matches Ok(s) ==> Some(s@) == toml_text_of(*v),
{
    match toml::to_string(v) {
        Ok(s) => Ok(s),
        Err(e) => Err(e.to_string()),
    }
}

/// Relies on `toml::Value`'s derived `Clone`: a deep copy, equal to the
/// value it copies, so that an unread node can be carried into the
/// rendered tree as it stands.
pub assume_specification[ <toml::Value as Clone>::clone ](t: &toml::Value) -> (r: toml::Value)
    ensures
        r == *t,
;

/// Relies on the variants of `toml::Value`: takes one value apart one
/// level deep, each variant to the matching tree node, table children
/// left wrapped for a later pass.
#[verifier::external_body]
pub(crate) fn split_toml(t: toml::Value) -> (r: Node)
    ensures
        r == toml_shallow(t),
{
    match t {
        toml::Value::String(s) => Node::Str(s),
        toml::Value::Integer(i) => Node::Int(i),
        toml::Value::Boolean(b) => Node::Bool(b),
        toml::Value::Table(es) => Node::Table(
            es.into_iter().map(|(k, c)| (k, wrap_opaque(c))).collect(),
        ),
        other => Node::Opaque(other),
    }
}

/// Relies on `toml::Value::String`: a string scalar.
#[verifier::external_body]
pub(crate) fn toml_of_str(s: String) -> (r: toml::Value)
    ensures
        r == toml_str_node(s@),
{
    toml::Value::String(s)
}

/// Relies on `toml::Value::Integer`: an integer scalar.
#[verifier::external_body]
pub(crate) fn toml_of_int(i: i64) -> (r: toml::Value)
    ensures
        r == toml_int_node(i),
{
    toml::Value::Integer(i)
}

/// Relies on `toml::Value::Boolean`: a boolean scalar.
#[verifier::external_body]
pub(crate) fn toml_of_bool(b: bool) -> (r: toml::Value)
    ensures
        r == toml_bool_node(b),
{
    toml::Value::Boolean(b)
}

/// The keys of a table's entries, read as character sequences.
pub open spec fn table_entry_views(es: Seq<(String, toml::Value)>) -> Seq<(Seq<char>, toml::Value)> {
    Seq::new(es.len(), |i: int| (es[i].0@, es[i].1))
}

/// Relies on `toml::Value::Table` and the table's `FromIterator`: a
/// table with the given entries, an entry per distinct key.
#[verifier::external_body]
pub(crate) fn toml_of_table(es: Vec<(String, toml::Value)>) -> (r: toml::Value)
    ensures
        r == toml_table_node(table_entry_views(es@)),
{
    toml::Value::Table(es.into_iter().collect())
}

/// How deep a parsed document is taken apart into tree nodes; whatever
/// lies deeper stays opaque.  The mutator reads two levels, so any
/// margin above that serves only inspection by callers.
pub const IMPORT_DEPTH: u64 = 16;

/// How many table levels the load descends through.
pub open spec fn import_depth() -> nat {
    IMPORT_DEPTH as nat
}

/// How a parsed toml value relates to the tree node a descent through
/// up to `depth` table levels builds from it: scalars map one to one, a
/// table keeps its keys and order with each wrapped child taken apart
/// in turn, and at depth zero a table's children stay wrapped.
pub open spec fn imports_to(t: toml::Value, depth: nat, n: Node) -> bool
    decreases depth,
{
    match toml_shallow(t) {
        Node::Table(es) => if depth == 0 {
            n == Node::Table(es)
        } else {
            match n {
                Node::Table(out) => {
                    &&& out@.len() == es@.len()
                    &&& forall|i: int| 0 <= i < es@.len() ==> out@[i].0 == es@[i].0
                    &&& forall|i: int|
                        #![trigger es@[i], out@[i]]
                        0 <= i < es@.len() ==> match es@[i].1 {
                            Node::Opaque(tc) => imports_to(tc, (depth - 1) as nat, out@[i].1),
                            other => out@[i].1 == other,
                        }
                },
                _ => false,
            }
        },
        other => n == other,
    }
}

/// How a manifest text relates to the document tree loaded from it:
/// the text parses, and the tree is the descent of the parsed value.
pub open spec fn text_imports_to(s: Seq<char>, n: Node) -> bool {
    match toml_doc_of(s) {
        Some(t) => imports_to(t, import_depth(), n),
        None => false,
    }
}

/// Turn one parsed toml value into a document tree node, descending
/// through up to `depth` table levels.
#[verifier::loop_isolation(false)]
fn import_value(t: toml::Value, depth: u64) -> (r: Node)
    ensures
        imports_to(t, depth as nat, r),
    decreases depth,
{
    let ghost t0 = t;
    let shallow = split_toml(t);
    match shallow {
        Node::Table(es) => {
            if depth == 0 {
                Node::Table(es)
            } else {
                let mut es = es;
                let ghost es0 = es@;
                let mut out: Vec<(String, Node)> = Vec::new();
                while es.len() > 0
                    invariant
                        out@.len() + es@.len() == es0.len(),
                        forall|j: int| 0 <= j < es@.len() ==> es@[j] == es0[out@.len() + j],
                        forall|j: int| 0 <= j < out@.len() ==> out@[j].0 == es0[j].0,
                        forall|j: int|
                            #![trigger es0[j], out@[j]]
                            0 <= j < out@.len() ==> match es0[j].1 {
                                Node::Opaque(tc) => imports_to(
                                    tc,
                                    (depth - 1) as nat,
                                    out@[j].1,
                                ),
                                other => out@[j].1 == other,
                            },
                    decreases es@.len(),
                {
                    let (k, child) = es.remove(0);
                    let child = match child {
                        Node::Opaque(tc) => import_value(tc, depth - 1),
                        other => other,
                    };
                    out.push((k, child));
                }
                Node::Table(out)
            }
        },
        other => other,
    }
}

/// Parse one manifest text into a document tree, or hand back the
/// parser's message.
pub(crate) fn import_text(text: &str) -> (r: Result<Node, String>)
    ensures
        r is Ok <==> toml_parses(text@),
        r matches Ok(n) ==> text_imports_to(text@, n),
{
    match parse_toml(text) {
        Ok(t) => Ok(import_value(t, IMPORT_DEPTH)),
        Err(e) => Err(e),
    }
}

/// The parsed form that rebuilding a document tree node yields:
/// scalars construct the matching parsed value, a table constructs a
/// table from its rebuilt entries, and an unread node is the parsed
/// value it has carried all along.
pub open spec fn export_spec(v: Node) -> toml::Value
    decreases v,
{
    match v {
        Node::Str(s) => toml_str_node(s@),
        Node::Int(i) => toml_int_node(i),
        Node::Bool(b) => toml_bool_node(b),
        Node::Opaque(t) => t,
        Node::Table(es) => toml_table_node(export_entries(es@)),
    }
}

/// The rebuilt form of a table's entries, key by key in order.
pub open spec fn export_entries(es: Seq<(String, Node)>) -> Seq<(Seq<char>, toml::Value)>
    decreases es,
{
    if es.len() == 0 {
        Seq::empty()
    } else {
        seq![(es[0].0@, export_spec(es[0].1))] + export_entries(es.drop_first())
    }
}

/// Rebuilt entries line up with their sources, key for key.
proof fn lemma_export_entries(es: Seq<(String, Node)>)
    ensures
        export_entries(es).len() == es.len(),
        forall|i: int|
            0 <= i < es.len() ==> export_entries(es)[i] == (es[i].0@, export_spec(es[i].1)),
    decreases es.len(),
{
    if es.len() > 0 {
        lemma_export_entries(es.drop_first());
        assert forall|i: int|
            0 <= i < es.len() implies export_entries(es)[i] == (
            es[i].0@,
            export_spec(es[i].1),
        ) by {
            if i > 0 {
                assert(es.drop_first()[i - 1] == es[i]);
                assert(export_entries(es)[i] == export_entries(es.drop_first())[i - 1]);
            }
        }
    }
}

/// Rebuild the parsed form of one document tree node.
#[verifier::loop_isolation(false)]
fn export_value(v: &Node) -> (r: toml::Value)
    ensures
        r == export_spec(*v),
    decreases v,
{
    match v {
        Node::Str(s) => toml_of_str(s.clone()),
        Node::Int(i) => toml_of_int(*i),
        Node::Bool(b) => toml_of_bool(*b),
        Node::Opaque(t) => t.clone(),
        Node::Table(es) => {
            let n = es.len();
            let mut out: Vec<(String, toml::Value)> = Vec::new();
            let mut i: usize = 0;
            while i < n
                invariant
                    n == es@.len(),
                    i <= n,
                    out@.len() == i,
                    forall|j: int| 0 <= j < i ==> out@[j].0 == es@[j].0,
                    forall|j: int| 0 <= j < i ==> out@[j].1 == export_spec(es@[j].1),
                decreases n - i,
            {
                let child = export_value(&es[i].1);
                out.push((es[i].0.clone(), child));
                i += 1;
            }
            proof {
                lemma_export_entries(es@);
                assert(table_entry_views(out@) =~= export_entries(es@));
            }
            toml_of_table(out)
        },
    }
}

/// Render one document tree back to manifest text, or hand back the
/// serializer's message.
pub(crate) fn export_text(v: &Node) -> (r: Result<String, String>)
    ensures
        r is Ok <==> toml_text_of(export_spec(*v)) is Some,
        r matches Ok(s) ==> Some(s@) == toml_text_of(export_spec(*v)),
{
    toml_to_text(&export_value(v))
}

} // verus!
