//! The trusted boundary to the document parser. Parsing the text format is
//! the outside crate's work; everything after it — defaults, mandatory
//! fields, typing — is resolved and verified on the [`DocValue`] tree.

use vstd::prelude::*;

use crate::value::DocValue;

verus! {

#[verifier::external_type_specification]
#[verifier::external_body]
pub struct ExTomlValue(toml::Value);

/// What parsing a document text yields: `None` where the text is not
/// well-formed TOML, otherwise the document's top-level table as a
/// [`DocValue`] tree. Parsing is a function of the text alone.
pub uninterp spec fn toml_doc(s: Seq<char>) -> Option<DocValue>;

/// Relies on `toml::from_str::<toml::Table>`: the parse of a document is
/// deterministic in the text, fails exactly on ill-formed text, and yields
/// a table at the top level.
#[verifier::external_body]
pub(crate) fn parse_document(s: &str) -> (r: Option<DocValue>)
    ensures
        r == toml_doc(s@),
        r matches Some(v) ==> v is Table,
{
    match toml::from_str::<toml::Table>(s) {
        Ok(t) => Some(tree_of_toml(toml::Value::Table(t))),
        Err(_) => None,
    }
}

/// Relies on `toml::Value` only as data: each variant of the parsed tree
/// becomes the corresponding [`DocValue`] variant, one arm per variant; the
/// kinds the schema never reads collapse into [`DocValue::Other`].
#[verifier::external_body]
fn tree_of_toml(v: toml::Value) -> DocValue {
    match v {
        toml::Value::String(s) => DocValue::Text(s),
        toml::Value::Integer(n) => DocValue::Int(n),
        toml::Value::Array(a) => DocValue::List(a.into_iter().map(tree_of_toml).collect()),
        toml::Value::Table(t) => DocValue::Table(
            t.into_iter().map(|e| (e.0, tree_of_toml(e.1))).collect(),
        ),
        _ => DocValue::Other,
    }
}

} // verus!
