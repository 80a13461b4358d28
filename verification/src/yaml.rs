//! A plain tree model of a structured-data document, and the trusted
//! parser that produces it. The schema normalizer walks this tree; only
//! the parse itself is taken on trust.

use vstd::prelude::*;

use yaml_rust::Yaml;

verus! {

/// One node of a parsed document. Strings are carried as their bytes;
/// mapping keys are nodes, as the underlying format allows.
#[derive(Debug)]
pub enum YamlNode {
    /// The absent value.
    Null,
    /// A boolean scalar.
    Boolean(bool),
    /// An integer scalar.
    Integer(i64),
    /// A floating-point scalar, kept as its source text.
    Real(Vec<u8>),
    /// A string scalar.
    Str(Vec<u8>),
    /// A sequence.
    Array(Vec<YamlNode>),
    /// A mapping, in document order.
    Hash(Vec<YamlPair>),
    /// An alias reference.
    Alias(usize),
    /// A value that failed to parse.
    BadValue,
}

/// One key/value pair of a mapping.
#[derive(Debug)]
pub struct YamlPair {
    pub key: YamlNode,
    pub value: YamlNode,
}

/// The parser crate's own node type, declared so the converter below may
/// take a reference to it; its values stay opaque here.
#[verifier::external_type_specification]
#[verifier::external_body]
pub struct ExYaml(Yaml);

/// What the parser makes of a document text: its list of documents, or
/// nothing when the text is rejected. A pure function of the text.
pub uninterp spec fn yaml_docs_of(text: Seq<char>) -> Option<Seq<YamlNode>>;

/// Relies on `yaml_rust::YamlLoader::load_from_str`: the parse result is a
/// function of the text alone. The wrapper converts each parsed node into
/// the plain tree above, one variant to one variant, with strings carried
/// as bytes.
#[verifier::external_body]
pub fn parse_yaml(text: &str) -> (r: Option<Vec<YamlNode>>)
    ensures
        match r {
            Some(docs) => yaml_docs_of(text@) == Some(docs@),
            None => yaml_docs_of(text@) is None,
        },
{
    match yaml_rust::YamlLoader::load_from_str(text) {
        Ok(docs) => Some(docs.iter().map(convert_node).collect()),
        Err(_) => None,
    }
}

/// Relies on the `yaml_rust::Yaml` data model: moves each variant's fields
/// into the corresponding variant of the plain tree.
#[verifier::external_body]
fn convert_node(y: &Yaml) -> YamlNode {
    match y {
        Yaml::Real(s) => YamlNode::Real(s.clone().into_bytes()),
        Yaml::Integer(v) => YamlNode::Integer(*v),
        Yaml::String(s) => YamlNode::Str(s.clone().into_bytes()),
        Yaml::Boolean(b) => YamlNode::Boolean(*b),
        Yaml::Array(a) => YamlNode::Array(a.iter().map(convert_node).collect()),
        Yaml::Hash(h) => YamlNode::Hash(
            h.iter().map(|(k, v)| YamlPair { key: convert_node(k), value: convert_node(v) }).collect(),
        ),
        Yaml::Alias(i) => YamlNode::Alias(*i),
        Yaml::Null => YamlNode::Null,
        Yaml::BadValue => YamlNode::BadValue,
    }
}

/// The value under a string key in a mapping: the first pair whose key is
/// the given string.
pub open spec fn spec_hash_get(pairs: Seq<YamlPair>, key: Seq<u8>) -> Option<YamlNode>
    decreases pairs.len(),
{
    if pairs.len() == 0 {
        None
    } else if pairs[0].key matches YamlNode::Str(k) && k@ == key {
        Some(pairs[0].value)
    } else {
        spec_hash_get(pairs.drop_first(), key)
    }
}

/// Look a string key up in a mapping's pairs.
pub fn hash_get<'a>(pairs: &'a Vec<YamlPair>, key: &[u8]) -> (r: Option<&'a YamlNode>)
    ensures
        match r {
            Some(v) => spec_hash_get(pairs@, key@) == Some(*v),
            None => spec_hash_get(pairs@, key@) is None,
        },
{
    let n = pairs.len();
    proof {
        assert(pairs@.skip(0) =~= pairs@);
    }
    for i in 0..n
        invariant
            n == pairs@.len(),
            spec_hash_get(pairs@, key@) == spec_hash_get(pairs@.skip(i as int), key@),
    {
        proof {
            assert(pairs@.skip(i as int).drop_first() =~= pairs@.skip(i + 1));
            assert(pairs@.skip(i as int)[0] == pairs@[i as int]);
        }
        match &pairs[i].key {
            YamlNode::Str(k) => {
                if crate::text::bytes_eq(k.as_slice(), key) {
                    return Some(&pairs[i].value);
                }
            },
            _ => {},
        }
    }
    proof {
        assert(pairs@.skip(n as int) =~= Seq::<YamlPair>::empty());
    }
    None
}

} // verus!
