//! A YAML document as plain values, and the loading of one from text.
use vstd::prelude::*;

verus! {

/// A YAML node. Numbers keep the text that serde_yaml writes for them.
#[derive(Debug, PartialEq)]
pub enum Yaml {
    Null,
    Bool(bool),
    Number(String),
    Text(String),
    List(Vec<Yaml>),
    Mapping(Vec<(Yaml, Yaml)>),
}

#[verifier::external_type_specification]
#[verifier::external_body]
pub struct ExValue(serde_yaml::Value);

/// The node that serde_yaml reads from these characters, if they are one
/// well-formed YAML document.
pub uninterp spec fn yaml_of(text: Seq<char>) -> Option<Yaml>;

/// Relies on `serde_yaml::from_str::<serde_yaml::Value>`: a function of the
/// text alone; `None` where serde_yaml reports an error.
#[verifier::external_body]
fn load_yaml(text: &str) -> (r: Option<Yaml>)
    ensures
        r == yaml_of(text@),
{
    serde_yaml::from_str::<serde_yaml::Value>(text).ok().map(tree_of)
}

/// Relies on the variants of `serde_yaml::Value`: each becomes the `Yaml`
/// variant of the same shape, numbers through their `Display` text.
#[verifier::external_body]
fn tree_of(v: serde_yaml::Value) -> Yaml {
    match v {
        serde_yaml::Value::Null => Yaml::Null,
        serde_yaml::Value::Bool(b) => Yaml::Bool(b),
        serde_yaml::Value::Number(n) => Yaml::Number(n.to_string()),
        serde_yaml::Value::String(s) => Yaml::Text(s),
        serde_yaml::Value::Sequence(xs) => Yaml::List(xs.into_iter().map(tree_of).collect()),
        serde_yaml::Value::Mapping(m) => Yaml::Mapping(
            m.into_iter().map(|(k, x)| (tree_of(k), tree_of(x))).collect(),
        ),
    }
}

/// Reads one YAML document; `None` where the text is not one.
pub fn parse_yaml(text: &str) -> (r: Option<Yaml>)
    ensures
        r == yaml_of(text@),
{
    load_yaml(text)
}

} // verus!
