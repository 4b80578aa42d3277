use vstd::prelude::*;

verus! {

/// One node of a read configuration text, reduced to the shapes the schema
/// can hold: null, booleans, strings, sequences and mappings.  A scalar no
/// schema field may hold (a number, a tagged value) is kept as `Other`, so
/// that a field of the wrong shape is recognized and refused.
#[derive(Debug)]
pub enum YamlNode {
    Null,
    Bool(bool),
    Str(String),
    List(Vec<YamlNode>),
    Mapping(Vec<(YamlNode, YamlNode)>),
    Other,
}

/// The mathematical form of a node tree.
pub ghost enum YamlNodeV {
    Null,
    Bool(bool),
    Str(Seq<char>),
    List(Seq<YamlNodeV>),
    Mapping(Seq<(YamlNodeV, YamlNodeV)>),
    Other,
}

/// The mathematical form of a vector of nodes, element by element.
pub open spec fn nodes_view(xs: Vec<YamlNode>) -> Seq<YamlNodeV>
    decreases xs,
{
    Seq::new(
        xs@.len(),
        |i: int|
            if 0 <= i < xs@.len() {
                xs@[i].deep_view()
            } else {
                YamlNodeV::Null
            },
    )
}

/// The mathematical form of a vector of mapping entries, pair by pair.
pub open spec fn entries_view(es: Vec<(YamlNode, YamlNode)>) -> Seq<(YamlNodeV, YamlNodeV)>
    decreases es,
{
    Seq::new(
        es@.len(),
        |i: int|
            if 0 <= i < es@.len() {
                (es@[i].0.deep_view(), es@[i].1.deep_view())
            } else {
                (YamlNodeV::Null, YamlNodeV::Null)
            },
    )
}

impl DeepView for YamlNode {
    type V = YamlNodeV;

    open spec fn deep_view(&self) -> YamlNodeV
        decreases self,
    {
        match self {
            YamlNode::Null => YamlNodeV::Null,
            YamlNode::Bool(b) => YamlNodeV::Bool(*b),
            YamlNode::Str(s) => YamlNodeV::Str(s@),
            YamlNode::List(xs) => YamlNodeV::List(nodes_view(*xs)),
            YamlNode::Mapping(es) => YamlNodeV::Mapping(entries_view(*es)),
            YamlNode::Other => YamlNodeV::Other,
        }
    }
}

/// serde_yaml's dynamically typed YAML value, declared so that trusted
/// readers can pass it along; the library never looks inside one.
#[verifier::external_type_specification]
#[verifier::external_body]
pub struct ExYamlValue(serde_yaml::Value);

/// serde_yaml's error, declared so that trusted readers can return it.
#[verifier::external_type_specification]
#[verifier::external_body]
pub struct ExYamlError(serde_yaml::Error);

/// What reading a text as YAML yields: `None` where the text is not well
/// formed, otherwise its node tree.  A function of the characters alone.
pub uninterp spec fn yaml_tree_of(s: Seq<char>) -> Option<YamlNodeV>;

/// Relies on `serde_yaml::from_str::<serde_yaml::Value>`: reading a text is
/// a function of the characters alone — the same text always yields the
/// same value tree, or fails.  `node_of_value` then reduces the tree,
/// variant by variant, to the shapes the schema reads.
#[verifier::external_body]
pub(crate) fn read_yaml_tree(s: &str) -> (r: Result<YamlNode, serde_yaml::Error>)
    ensures
        r is Ok <==> yaml_tree_of(s@) is Some,
        r matches Ok(n) ==> yaml_tree_of(s@) == Some(n.deep_view()),
{
    match serde_yaml::from_str::<serde_yaml::Value>(s) {
        Ok(v) => Ok(node_of_value(&v)),
        Err(e) => Err(e),
    }
}

/// Relies on the public shape of `serde_yaml::Value`: each variant moves to
/// the matching `YamlNode` variant, in document order; numbers and tagged
/// values, which no schema field may hold, become `Other`.
#[verifier::external_body]
fn node_of_value(v: &serde_yaml::Value) -> YamlNode {
    match v {
        serde_yaml::Value::Null => YamlNode::Null,
        serde_yaml::Value::Bool(b) => YamlNode::Bool(*b),
        serde_yaml::Value::Number(_) => YamlNode::Other,
        serde_yaml::Value::String(s) => YamlNode::Str(s.clone()),
        serde_yaml::Value::Sequence(xs) => YamlNode::List(xs.iter().map(node_of_value).collect()),
        serde_yaml::Value::Mapping(m) => YamlNode::Mapping(
            m.iter().map(|(k, w)| (node_of_value(k), node_of_value(w))).collect(),
        ),
        serde_yaml::Value::Tagged(_) => YamlNode::Other,
    }
}

/// Relies on `Display` of `serde_yaml::Error`: the reader's diagnostic
/// text, with the offending location where the reader gives one.
#[verifier::external_body]
pub(crate) fn yaml_error_text(e: &serde_yaml::Error) -> String {
    format!("{}", e)
}

} // verus!
