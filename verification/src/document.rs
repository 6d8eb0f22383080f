//! Structured documents. JSON and TOML texts are parsed by the crates made for
//! them; what they yield is carried over, value for value, into a tree of this
//! crate's own, on which every lookup is verified.
use crate::text::{chars_eq_str, chars_of};
use vstd::prelude::*;

verus! {

/// A value of a parsed document.
#[derive(Debug)]
pub enum Node {
    /// JSON's `null`.
    Null,
    /// A truth value.
    Bool(bool),
    /// A number or a date, in the notation in which its parser prints it.
    Scalar(String),
    /// A string.
    Text(String),
    /// A sequence of values.
    List(Vec<Node>),
    /// Keyed values, in the order in which the parser hands them out.
    Table(Vec<(String, Node)>),
}

/// `serde_json::Value`, known to the verifier by name only.
#[verifier::external_type_specification]
#[verifier::external_body]
pub struct ExJsonValue(serde_json::Value);

/// `toml::Value`, known to the verifier by name only.
#[verifier::external_type_specification]
#[verifier::external_body]
pub struct ExTomlValue(toml::Value);

/// The tree that `serde_json` reads from a text, where it reads one.
pub uninterp spec fn json_document(text: Seq<char>) -> Option<Node>;

/// The tree that `toml` reads from a text, where it reads one.
pub uninterp spec fn toml_document(text: Seq<char>) -> Option<Node>;

/// Carries a `serde_json::Value` over into a `Node`, variant by variant.
#[verifier::external_body]
fn node_from_json(value: &serde_json::Value) -> Node {
    match value {
        serde_json::Value::Null => Node::Null,
        serde_json::Value::Bool(b) => Node::Bool(*b),
        serde_json::Value::Number(n) => Node::Scalar(n.to_string()),
        serde_json::Value::String(s) => Node::Text(s.clone()),
        serde_json::Value::Array(items) => Node::List(items.iter().map(node_from_json).collect()),
        serde_json::Value::Object(map) => Node::Table(
            map.iter().map(|(k, v)| (k.clone(), node_from_json(v))).collect(),
        ),
    }
}

/// Carries a `toml::Value` over into a `Node`, variant by variant.
#[verifier::external_body]
fn node_from_toml(value: &toml::Value) -> Node {
    match value {
        toml::Value::String(s) => Node::Text(s.clone()),
        toml::Value::Integer(i) => Node::Scalar(i.to_string()),
        toml::Value::Float(x) => Node::Scalar(x.to_string()),
        toml::Value::Boolean(b) => Node::Bool(*b),
        toml::Value::Datetime(d) => Node::Scalar(d.to_string()),
        toml::Value::Array(items) => Node::List(items.iter().map(node_from_toml).collect()),
        toml::Value::Table(map) => Node::Table(
            map.iter().map(|(k, v)| (k.clone(), node_from_toml(v))).collect(),
        ),
    }
}

/// `serde_json::from_str` into a `serde_json::Value`: the document that the
/// text holds, and nothing where the text is not one JSON document.
#[verifier::external_body]
pub(crate) fn parse_json(text: &str) -> (document: Option<Node>)
    ensures
        document == json_document(text@),
{
    match serde_json::from_str::<serde_json::Value>(text) {
        Ok(value) => Some(node_from_json(&value)),
        Err(_) => None,
    }
}

/// `toml::from_str` into a `toml::Value`: the document that the text holds,
/// and nothing where the text is not a TOML document.
#[verifier::external_body]
pub(crate) fn parse_toml(text: &str) -> (document: Option<Node>)
    ensures
        document == toml_document(text@),
{
    match toml::from_str::<toml::Value>(text) {
        Ok(value) => Some(node_from_toml(&value)),
        Err(_) => None,
    }
}

/// The text in which `serde_json` prints a tree, keys in their own order and
/// nested values indented, where it prints one.
pub uninterp spec fn json_text(document: Node) -> Option<Seq<char>>;

/// Carries a `Node` over into a `serde_json::Value`, variant by variant; a
/// scalar becomes the number that it writes, and `null` where it writes none.
#[verifier::external_body]
fn json_from_node(node: &Node) -> serde_json::Value {
    match node {
        Node::Null => serde_json::Value::Null,
        Node::Bool(b) => serde_json::Value::Bool(*b),
        Node::Scalar(s) => serde_json::from_str(s).unwrap_or(serde_json::Value::Null),
        Node::Text(s) => serde_json::Value::String(s.clone()),
        Node::List(items) => serde_json::Value::Array(items.iter().map(json_from_node).collect()),
        Node::Table(entries) => serde_json::Value::Object(
            entries.iter().map(|(k, v)| (k.clone(), json_from_node(v))).collect(),
        ),
    }
}

/// `serde_json::to_string_pretty` of the tree as a `serde_json::Value`.
#[verifier::external_body]
pub(crate) fn to_json_pretty(document: &Node) -> (text: Option<String>)
    ensures
        match text {
            Some(printed) => json_text(*document) == Some(printed@),
            None => json_text(*document) is None,
        },
{
    match serde_json::to_string_pretty(&json_from_node(document)) {
        Ok(text) => Some(text),
        Err(_) => None,
    }
}

/// The first value stored under `key` among `entries` from position `from` on.
pub open spec fn first_under(entries: Seq<(String, Node)>, key: Seq<char>, from: int) -> Option<
    Node,
>
    decreases entries.len() - from,
{
    if from < 0 || from >= entries.len() {
        None
    } else if entries[from].0@ == key {
        Some(entries[from].1)
    } else {
        first_under(entries, key, from + 1)
    }
}

/// Position of the first entry under `key` at or after `from`; the number of
/// entries where there is none.
pub open spec fn position_under(entries: Seq<(String, Node)>, key: Seq<char>, from: int) -> int
    decreases entries.len() - from,
{
    if from < 0 || from >= entries.len() || entries[from].0@ == key {
        if from < 0 || from >= entries.len() {
            entries.len() as int
        } else {
            from
        }
    } else {
        position_under(entries, key, from + 1)
    }
}

/// The first value under a key is the value at the first position under it.
pub proof fn lemma_position_under(entries: Seq<(String, Node)>, key: Seq<char>, from: int)
    requires
        0 <= from <= entries.len(),
    ensures
        from <= position_under(entries, key, from) <= entries.len(),
        position_under(entries, key, from) < entries.len() ==> entries[position_under(
            entries,
            key,
            from,
        )].0@ == key && first_under(entries, key, from) == Some(
            entries[position_under(entries, key, from)].1,
        ),
        position_under(entries, key, from) == entries.len() ==> first_under(entries, key, from)
            is None,
        forall|i: int| from <= i < position_under(entries, key, from) ==> entries[i].0@ != key,
    decreases entries.len() - from,
{
    if from < entries.len() && entries[from].0@ != key {
        lemma_position_under(entries, key, from + 1);
    }
}

impl Node {
    /// The value stored under `key`, where this is a table that has the key.
    pub open spec fn member(self, key: Seq<char>) -> Option<Node> {
        match self {
            Node::Table(entries) => first_under(entries@, key, 0),
            _ => None,
        }
    }

    /// The string, where this is one.
    pub open spec fn text(self) -> Option<Seq<char>> {
        match self {
            Node::Text(s) => Some(s@),
            _ => None,
        }
    }

    /// The items, where this is a list.
    pub open spec fn items(self) -> Option<Seq<Node>> {
        match self {
            Node::List(items) => Some(items@),
            _ => None,
        }
    }

    /// The document that a JSON text holds, where it holds one.
    pub fn from_json(text: &str) -> (document: Option<Node>)
        ensures
            document == json_document(text@),
    {
        parse_json(text)
    }

    /// The document that a TOML text holds, where it holds one.
    pub fn from_toml(text: &str) -> (document: Option<Node>)
        ensures
            document == toml_document(text@),
    {
        parse_toml(text)
    }

    /// The value stored under `key`, where this is a table that has the key.
    pub fn get(&self, key: &str) -> (found: Option<&Node>)
        ensures
            match found {
                Some(node) => self.member(key@) == Some(*node),
                None => self.member(key@) is None,
            },
    {
        match self {
            Node::Table(entries) => {
                let mut i: usize = 0;
                while i < entries.len()
                    invariant
                        i <= entries.len(),
                        self.member(key@) == first_under(entries@, key@, i as int),
                    decreases entries.len() - i,
                {
                    let name = chars_of(entries[i].0.as_str());
                    if chars_eq_str(&name, key) {
                        return Some(&entries[i].1);
                    }
                    i += 1;
                }
                None
            },
            _ => None,
        }
    }

    /// The string, where this is one.
    pub fn as_str(&self) -> (found: Option<&str>)
        ensures
            match found {
                Some(s) => self.text() == Some(s@),
                None => self.text() is None,
            },
    {
        match self {
            Node::Text(s) => Some(s.as_str()),
            _ => None,
        }
    }

    /// The items, where this is a list.
    pub fn as_array(&self) -> (found: Option<&Vec<Node>>)
        ensures
            match found {
                Some(items) => self.items() == Some(items@),
                None => self.items() is None,
            },
    {
        match self {
            Node::List(items) => Some(items),
            _ => None,
        }
    }

    /// The string stored under `key`, where this is a table that holds a
    /// string there.
    pub open spec fn member_text(self, key: Seq<char>) -> Option<Seq<char>> {
        match self.member(key) {
            Some(node) => node.text(),
            None => None,
        }
    }

    /// The string stored under `key`, where this is a table that holds a
    /// string there.
    pub fn get_str(&self, key: &str) -> (found: Option<&str>)
        ensures
            match found {
                Some(s) => self.member_text(key@) == Some(s@),
                None => self.member_text(key@) is None,
            },
    {
        match self.get(key) {
            Some(node) => node.as_str(),
            None => None,
        }
    }
}

} // verus!
