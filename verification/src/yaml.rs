//! Reading YAML text into a document tree, by `serde_yaml_ng`.
//!
//! The parser is not verified. What this module takes on trust of it is
//! written down in the contracts of the two private functions below and in
//! nothing else.

use vstd::prelude::*;
use crate::document::{Doc, Node};

verus! {

/// `serde_yaml_ng::Value`, the parser's own tree. Nothing is known of what is
/// inside one but through [`value_doc`].
#[verifier::external_type_specification]
#[verifier::external_body]
pub struct ExYamlValue(serde_yaml_ng::Value);

/// `serde_yaml_ng::Error`, the parser's complaint about a text.
#[verifier::external_type_specification]
#[verifier::external_body]
pub struct ExYamlError(serde_yaml_ng::Error);

/// The document that `serde_yaml_ng::from_str` reads from `text`, or `None`
/// where it rejects the text. It stands for the parser's whole behaviour,
/// which depends on the text alone; nothing more is claimed of it.
pub uninterp spec fn yaml_document(text: Seq<char>) -> Option<Doc>;

/// The document that a `serde_yaml_ng::Value` holds.
pub uninterp spec fn value_doc(value: serde_yaml_ng::Value) -> Doc;

/// Calls `serde_yaml_ng::from_str` for a `serde_yaml_ng::Value`.
///
/// Trusted: the call succeeds exactly on the texts for which
/// [`yaml_document`] is `Some`, and the value it gives holds that document.
/// The parser bounds nesting and alias expansion by itself and answers with
/// an error beyond them.
#[verifier::external_body]
fn yaml_from_str(text: &str) -> (r: Result<serde_yaml_ng::Value, serde_yaml_ng::Error>)
    ensures
        r matches Ok(value) ==> yaml_document(text@) == Some(value_doc(value)),
        r is Err ==> yaml_document(text@) is None,
{
    serde_yaml_ng::from_str::<serde_yaml_ng::Value>(text)
}

/// Copies a `serde_yaml_ng::Value` into a [`Node`], variant for variant: a
/// number by the digits that `Number`'s `Display` writes, a mapping by its
/// entries in the order that `Mapping::iter` gives, which is the order of
/// insertion, and a tag by the text that `Tag`'s `Display` writes.
///
/// Trusted: the node holds the document of the value.
#[verifier::external_body]
fn node_of_value(value: &serde_yaml_ng::Value) -> (node: Node)
    ensures
        node@ == value_doc(*value),
{
    match value {
        serde_yaml_ng::Value::Null => Node::Null,
        serde_yaml_ng::Value::Bool(flag) => Node::Flag(*flag),
        serde_yaml_ng::Value::Number(number) => Node::Number(number.to_string()),
        serde_yaml_ng::Value::String(text) => Node::Text(text.clone()),
        serde_yaml_ng::Value::Sequence(items) => Node::List(items.iter().map(node_of_value).collect()),
        serde_yaml_ng::Value::Mapping(entries) => Node::Table(
            entries.iter().map(|(key, value)| (node_of_value(key), node_of_value(value))).collect(),
        ),
        serde_yaml_ng::Value::Tagged(tagged) => Node::Tagged(
            tagged.tag.to_string(),
            Box::new(node_of_value(&tagged.value)),
        ),
    }
}

/// Reads a YAML text as a document tree, or gives the parser's diagnostic
/// where the text is no single YAML document.
pub fn read(text: &str) -> (r: Result<Node, String>)
    ensures
        match r {
            Ok(node) => yaml_document(text@) == Some(node@),
            Err(_) => yaml_document(text@) is None,
        },
{
    match yaml_from_str(text) {
        Ok(value) => Ok(node_of_value(&value)),
        Err(complaint) => Err(complaint.to_string()),
    }
}

} // verus!
