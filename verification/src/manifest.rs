//! The package manifest, of which only the package's name is read.

use crate::text::{chars_of, same_text};
use vstd::prelude::*;

verus! {

/// Why no project name could be had from a manifest.
#[derive(Clone, Copy, Debug, PartialEq, Eq, Structural)]
pub enum ManifestError {
    /// There is no manifest file.
    NotFound,
    /// The manifest is no TOML document.
    ParseError,
    /// The document gives the package no name that can be used.
    MissingField,
}

/// A TOML value.  Floats and dates are kept without what they hold.
#[derive(Debug, PartialEq, Eq)]
pub enum Node {
    Text(String),
    Integer(i64),
    Float,
    Boolean(bool),
    Datetime,
    Array(Vec<Node>),
    Table(Vec<(String, Node)>),
}

/// The value of the first entry under `key`, if there is one.
pub open spec fn lookup(entries: Seq<(String, Node)>, key: Seq<char>) -> Option<Node>
    decreases entries.len(),
{
    if entries.len() == 0 {
        None
    } else if entries[0].0@ == key {
        Some(entries[0].1)
    } else {
        lookup(entries.skip(1), key)
    }
}

impl Node {
    /// The value under `key` of a table; nothing for any other value.
    pub open spec fn child(self, key: Seq<char>) -> Option<Node> {
        match self {
            Node::Table(entries) => lookup(entries@, key),
            _ => None,
        }
    }
}

/// White space, as Unicode lists it.
pub open spec fn is_space(c: char) -> bool {
    let n = c as u32;
    ||| 0x09 <= n <= 0x0d
    ||| n == 0x20
    ||| n == 0x85
    ||| n == 0xa0
    ||| n == 0x1680
    ||| 0x2000 <= n <= 0x200a
    ||| n == 0x2028
    ||| n == 0x2029
    ||| n == 0x202f
    ||| n == 0x205f
    ||| n == 0x3000
}

/// A character that parts the components of a path.
pub open spec fn is_separator(c: char) -> bool {
    c == '/' || c == '\\'
}

/// A name that can stand for the project in file names: not empty, on
/// one line, and without white space or a path separator.
pub open spec fn valid_name(name: Seq<char>) -> bool {
    &&& name.len() > 0
    &&& forall|i: int| 0 <= i < name.len() ==> !is_space(#[trigger] name[i]) && !is_separator(name[i])
}

/// The project's name as the document gives it: the text under `name` in
/// the table under `package`, where it is a valid name.
pub open spec fn package_name(document: Node) -> Result<Seq<char>, ManifestError> {
    match document.child("package"@) {
        Some(package) => match package.child("name"@) {
            Some(Node::Text(name)) => if valid_name(name@) {
                Ok(name@)
            } else {
                Err(ManifestError::MissingField)
            },
            _ => Err(ManifestError::MissingField),
        },
        None => Err(ManifestError::MissingField),
    }
}

/// Decides [`valid_name`].
pub fn is_valid_name(name: &str) -> (valid: bool)
    ensures
        valid == valid_name(name@),
{
    let chars = chars_of(name);
    if chars.len() == 0 {
        return false;
    }
    let mut i: usize = 0;
    while i < chars.len()
        invariant
            i <= chars.len(),
            chars@ == name@,
            forall|j: int| 0 <= j < i ==> !is_space(#[trigger] chars@[j]) && !is_separator(chars@[j]),
        decreases chars.len() - i,
    {
        let c = chars[i];
        let n = c as u32;
        let space = (0x09 <= n && n <= 0x0d) || n == 0x20 || n == 0x85 || n == 0xa0 || n == 0x1680
            || (0x2000 <= n && n <= 0x200a) || n == 0x2028 || n == 0x2029 || n == 0x202f || n
            == 0x205f || n == 0x3000;
        if space || c == '/' || c == '\\' {
            return false;
        }
        i += 1;
    }
    true
}

/// The value under `key` of a table.
pub fn child<'a>(node: &'a Node, key: &str) -> (found: Option<&'a Node>)
    ensures
        node.child(key@) == match found {
            Some(value) => Some(*value),
            None => None,
        },
{
    match node {
        Node::Table(entries) => {
            let mut i: usize = 0;
            assert(entries@.skip(0) == entries@);
            while i < entries.len()
                invariant
                    i <= entries.len(),
                    node.child(key@) == lookup(entries@.skip(i as int), key@),
                decreases entries.len() - i,
            {
                assert(entries@.skip(i as int)[0] == entries@[i as int]);
                assert(entries@.skip(i as int).skip(1) == entries@.skip(i + 1));
                if same_text(entries[i].0.as_str(), key) {
                    return Some(&entries[i].1);
                }
                i += 1;
            }
            None
        },
        _ => None,
    }
}

/// The project's name, or the error that stands for the fault.
pub open spec fn name_view(name: Result<String, ManifestError>) -> Result<Seq<char>, ManifestError> {
    match name {
        Ok(text) => Ok(text@),
        Err(error) => Err(error),
    }
}

/// The project's name as the document gives it.
pub fn project_name(document: &Node) -> (name: Result<String, ManifestError>)
    ensures
        name_view(name) == package_name(*document),
{
    let package = match child(document, "package") {
        Some(package) => package,
        None => {
            return Err(ManifestError::MissingField);
        },
    };
    match child(package, "name") {
        Some(Node::Text(name)) => {
            if is_valid_name(name.as_str()) {
                Ok(name.clone())
            } else {
                Err(ManifestError::MissingField)
            }
        },
        _ => Err(ManifestError::MissingField),
    }
}

/// `toml::Value`, a value as the TOML parser hands it out.  Nothing is
/// known of it but what [`held_by`] names.
#[verifier::external_type_specification]
#[verifier::external_body]
pub struct ExValue(toml::Value);

/// `toml::de::Error`, the parser's complaint about a text.  Nothing is
/// read from it.
#[verifier::external_type_specification]
#[verifier::external_body]
pub struct ExParseError(toml::de::Error);

/// The document that the TOML parser reads from `text`, or nothing where
/// it takes the text for no TOML.
pub uninterp spec fn parsed_document(text: Seq<char>) -> Option<Node>;

/// What a value of the TOML parser holds.
pub uninterp spec fn held_by(value: toml::Value) -> Node;

/// `<toml::Value as FromStr>::from_str`, which reads `text` as a TOML
/// document.  Believed: whether the text is taken, and what is read from
/// it, depend on the text alone.
#[verifier::external_body]
fn parse_value(text: &str) -> (parsed: Result<toml::Value, toml::de::Error>)
    ensures
        parsed_document(text@) == match parsed {
            Ok(value) => Some(held_by(value)),
            Err(_) => None,
        },
{
    text.parse::<toml::Value>()
}

/// Moves what a `toml::Value` holds into a [`Node`], variant by variant;
/// `toml::map::Map::into_iter` hands out a table's entries.  Believed:
/// the node is a function of the value.
#[verifier::external_body]
fn node_of(value: toml::Value) -> (node: Node)
    ensures
        node == held_by(value),
{
    match value {
        toml::Value::String(text) => Node::Text(text),
        toml::Value::Integer(number) => Node::Integer(number),
        toml::Value::Float(_) => Node::Float,
        toml::Value::Boolean(truth) => Node::Boolean(truth),
        toml::Value::Datetime(_) => Node::Datetime,
        toml::Value::Array(items) => Node::Array(items.into_iter().map(node_of).collect()),
        toml::Value::Table(entries) => Node::Table(
            entries.into_iter().map(|(key, item)| (key, node_of(item))).collect(),
        ),
    }
}

/// Reads `text` as a TOML document.
pub fn parse_document(text: &str) -> (document: Result<Node, ManifestError>)
    ensures
        match document {
            Ok(node) => parsed_document(text@) == Some(node),
            Err(error) => error == ManifestError::ParseError && parsed_document(text@) is None,
        },
{
    match parse_value(text) {
        Ok(value) => Ok(node_of(value)),
        Err(_) => Err(ManifestError::ParseError),
    }
}

/// The text of a file that may be missing.
pub open spec fn text_of(contents: Option<&str>) -> Option<Seq<char>> {
    match contents {
        Some(text) => Some(text@),
        None => None,
    }
}

/// The project's name as a manifest file gives it.
///
/// No file gives `NotFound`, a text that is no TOML gives `ParseError`,
/// and a document without a valid text under `package.name` gives
/// `MissingField`.
pub open spec fn manifest_name(contents: Option<Seq<char>>) -> Result<Seq<char>, ManifestError> {
    match contents {
        None => Err(ManifestError::NotFound),
        Some(text) => match parsed_document(text) {
            None => Err(ManifestError::ParseError),
            Some(document) => package_name(document),
        },
    }
}

/// The project's name from the contents of the manifest file, `None`
/// where there is no such file.
pub fn read_project_name(contents: Option<&str>) -> (name: Result<String, ManifestError>)
    ensures
        name_view(name) == manifest_name(text_of(contents)),
{
    let text = match contents {
        Some(text) => text,
        None => {
            return Err(ManifestError::NotFound);
        },
    };
    match parse_document(text) {
        Ok(document) => project_name(&document),
        Err(error) => Err(error),
    }
}

} // verus!
