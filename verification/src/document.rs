//! TOML documents as plain values, and the calls that read and write them.

use toml::Value;
use vstd::prelude::*;
use crate::text::same_text;

verus! {

/// A node of a TOML document. A table keeps its entries in the order of
/// the document that was read, or in which they were put.
#[derive(Debug, PartialEq)]
pub enum Node {
    /// A string.
    Text(String),
    /// An integer.
    Integer(i64),
    /// A boolean.
    Boolean(bool),
    /// A number with a fraction, kept as it is written.
    Real(String),
    /// A date or time, kept as it is written.
    Moment(String),
    /// An array.
    List(Vec<Node>),
    /// A table: keys with their values.
    Table(Vec<(String, Node)>),
}

/// What a node is, mathematically.
pub enum NodeModel {
    Text(Seq<char>),
    Integer(int),
    Boolean(bool),
    Real(Seq<char>),
    Moment(Seq<char>),
    List(Seq<NodeModel>),
    Table(Seq<(Seq<char>, NodeModel)>),
}

/// What a node is, mathematically.
pub open spec fn node_model(node: Node) -> NodeModel
    decreases node,
{
    match node {
        Node::Text(text) => NodeModel::Text(text@),
        Node::Integer(number) => NodeModel::Integer(number as int),
        Node::Boolean(flag) => NodeModel::Boolean(flag),
        Node::Real(text) => NodeModel::Real(text@),
        Node::Moment(text) => NodeModel::Moment(text@),
        Node::List(items) => NodeModel::List(items_model(items@)),
        Node::Table(entries) => NodeModel::Table(entries_model(entries@)),
    }
}

/// What the items of an array are, mathematically.
pub open spec fn items_model(items: Seq<Node>) -> Seq<NodeModel>
    decreases items,
{
    if items.len() == 0 {
        Seq::empty()
    } else {
        items_model(items.drop_last()).push(node_model(items.last()))
    }
}

/// What the entries of a table are, mathematically.
pub open spec fn entries_model(entries: Seq<(String, Node)>) -> Seq<(Seq<char>, NodeModel)>
    decreases entries,
{
    if entries.len() == 0 {
        Seq::empty()
    } else {
        entries_model(entries.drop_last()).push((entries.last().0@, node_model(entries.last().1)))
    }
}

impl DeepView for Node {
    type V = NodeModel;

    open spec fn deep_view(&self) -> NodeModel {
        node_model(*self)
    }
}

/// The entries of a table, one by one.
pub proof fn lemma_entries_model(entries: Seq<(String, Node)>)
    ensures
        entries_model(entries).len() == entries.len(),
        forall|i: int|
            0 <= i < entries.len() ==> #[trigger] entries_model(entries)[i] == (
                entries[i].0@,
                entries[i].1.deep_view(),
            ),
    decreases entries.len(),
{
    if entries.len() > 0 {
        lemma_entries_model(entries.drop_last());
    }
}

/// The value under the first entry of `entries` whose key is `key`.
pub open spec fn lookup(entries: Seq<(Seq<char>, NodeModel)>, key: Seq<char>) -> Option<NodeModel>
    decreases entries.len(),
{
    if entries.len() == 0 {
        None
    } else if entries[0].0 == key {
        Some(entries[0].1)
    } else {
        lookup(entries.drop_first(), key)
    }
}

/// Whether no key occurs twice among entries.
pub open spec fn distinct_keys<K, V>(entries: Seq<(K, V)>) -> bool {
    forall|i: int, j: int| 0 <= i < j < entries.len() ==> entries[i].0 != entries[j].0
}

/// Whether no table of a document, at any depth, has a key twice.
pub open spec fn unique_tables(node: NodeModel) -> bool
    decreases node,
{
    match node {
        NodeModel::Table(entries) => distinct_keys(entries) && forall|i: int|
            0 <= i < entries.len() ==> unique_tables(#[trigger] entries[i].1),
        NodeModel::List(items) => forall|i: int|
            0 <= i < items.len() ==> unique_tables(#[trigger] items[i]),
        _ => true,
    }
}

/// What is found in a table without a key twice is without one as well.
pub proof fn lemma_lookup_unique(entries: Seq<(Seq<char>, NodeModel)>, key: Seq<char>)
    requires
        forall|i: int| 0 <= i < entries.len() ==> unique_tables(#[trigger] entries[i].1),
    ensures
        match lookup(entries, key) {
            Some(found) => unique_tables(found),
            None => true,
        },
    decreases entries.len(),
{
    if entries.len() > 0 && entries[0].0 != key {
        let rest = entries.drop_first();
        assert forall|i: int| 0 <= i < rest.len() implies unique_tables(#[trigger] rest[i].1) by {
            assert(rest[i] == entries[i + 1]);
        }
        lemma_lookup_unique(rest, key);
    }
}

/// What is found in entries with one more at the end: what was found
/// before, else the new entry where its key is the one looked for.
pub proof fn lemma_lookup_push(
    entries: Seq<(Seq<char>, NodeModel)>,
    last: (Seq<char>, NodeModel),
    key: Seq<char>,
)
    ensures
        lookup(entries.push(last), key) == match lookup(entries, key) {
            Some(found) => Some(found),
            None => if last.0 == key {
                Some(last.1)
            } else {
                None
            },
        },
    decreases entries.len(),
{
    let all = entries.push(last);
    assert(all.len() == entries.len() + 1);
    if entries.len() == 0 {
        assert(all[0] == last);
        assert(all.drop_first() =~= Seq::<(Seq<char>, NodeModel)>::empty());
        assert(lookup(all.drop_first(), key) is None);
    } else {
        assert(all[0] == entries[0]);
        assert(all.drop_first() =~= entries.drop_first().push(last));
        lemma_lookup_push(entries.drop_first(), last, key);
    }
}

impl NodeModel {
    /// The value under `key`, where `self` is a table that has the key.
    pub open spec fn field(self, key: Seq<char>) -> Option<NodeModel> {
        match self {
            NodeModel::Table(entries) => lookup(entries, key),
            _ => None,
        }
    }

    /// The text, where `self` is a string.
    pub open spec fn text(self) -> Option<Seq<char>> {
        match self {
            NodeModel::Text(text) => Some(text),
            _ => None,
        }
    }

    /// The entries, where `self` is a table.
    pub open spec fn entries(self) -> Option<Seq<(Seq<char>, NodeModel)>> {
        match self {
            NodeModel::Table(entries) => Some(entries),
            _ => None,
        }
    }
}

/// The value under the first entry of `entries` whose key is `key`.
pub fn find<'a>(entries: &'a Vec<(String, Node)>, key: &str) -> (found: Option<&'a Node>)
    ensures
        found.deep_view() == lookup(entries_model(entries@), key@),
{
    let ghost all = entries_model(entries@);
    let mut i: usize = 0;
    proof {
        lemma_entries_model(entries@);
    }
    assert(all.subrange(0, all.len() as int) =~= all);
    while i < entries.len()
        invariant
            i <= entries.len(),
            all == entries_model(entries@),
            all.len() == entries.len(),
            forall|j: int| 0 <= j < all.len() ==> all[j].0 == entries[j].0@,
            forall|j: int| 0 <= j < all.len() ==> all[j].1 == entries[j].1.deep_view(),
            lookup(all, key@) == lookup(all.subrange(i as int, all.len() as int), key@),
        decreases entries.len() - i,
    {
        let ghost rest = all.subrange(i as int, all.len() as int);
        assert(rest[0] == all[i as int]);
        assert(rest.drop_first() =~= all.subrange(i + 1, all.len() as int));
        if same_text(entries[i].0.as_str(), key) {
            return Some(&entries[i].1);
        }
        i = i + 1;
    }
    None
}

impl Node {
    /// The value under `key`, where `self` is a table that has the key.
    pub fn get(&self, key: &str) -> (found: Option<&Node>)
        ensures
            found.deep_view() == self.deep_view().field(key@),
    {
        match self {
            Node::Table(entries) => {
                find(entries, key)
            },
            _ => None,
        }
    }

    /// The text, where `self` is a string.
    pub fn as_text(&self) -> (text: Option<&String>)
        ensures
            text.deep_view() == self.deep_view().text(),
    {
        match self {
            Node::Text(text) => Some(text),
            _ => None,
        }
    }

    /// The entries, where `self` is a table.
    pub fn as_entries(&self) -> (entries: Option<&Vec<(String, Node)>>)
        ensures
            match entries {
                Some(entries) => self.deep_view().entries() == Some(entries_model(entries@)),
                None => self.deep_view().entries() is None,
            },
    {
        match self {
            Node::Table(entries) => {
                Some(entries)
            },
            _ => None,
        }
    }
}

/// Adds an entry at the end of a table's entries.
pub fn push_entry(entries: &mut Vec<(String, Node)>, key: &str, node: Node)
    ensures
        entries_model(final(entries)@) == entries_model(old(entries)@).push(
            (key@, node.deep_view()),
        ),
{
    entries.push((key.to_owned(), node));
    assert(entries@.drop_last() =~= old(entries)@);
}

/// A string node that holds `text`.
pub fn text_node(text: &str) -> (node: Node)
    ensures
        node.deep_view() == NodeModel::Text(text@),
{
    Node::Text(text.to_owned())
}

/// The table node with the given entries.
pub fn table_node(entries: Vec<(String, Node)>) -> (node: Node)
    ensures
        node.deep_view() == NodeModel::Table(entries_model(entries@)),
{
    Node::Table(entries)
}

/// A value of the `toml` crate, as its parser yields it.
#[verifier::external_type_specification]
#[verifier::external_body]
pub struct ExTomlValue(toml::Value);

/// The error of the `toml` crate's parser.
#[verifier::external_type_specification]
#[verifier::external_body]
pub struct ExTomlError(toml::de::Error);

/// What a value of the `toml` crate holds, as a value of this library.
pub uninterp spec fn toml_node(raw: toml::Value) -> NodeModel;

/// The document that a text is in TOML, if it is one.
pub uninterp spec fn toml_document(text: Seq<char>) -> Option<NodeModel>;

/// A document as the `toml` crate keeps it: the entries of each table in
/// the order of their keys, one entry for each key. There is none where a
/// number or a date is not written as TOML writes them.
pub uninterp spec fn toml_normal(doc: NodeModel) -> Option<NodeModel>;

/// The text that the `toml` crate writes for a document, if it can.
pub uninterp spec fn toml_text(doc: NodeModel) -> Option<Seq<char>>;

/// Parses a text with `str::parse` into a `toml::Table`, which is
/// `toml::from_str`. The result is named: the contract says that the same
/// text gives the same outcome, that a document is a table, and that no
/// table in it has a key twice, since a `toml::Table` is a map.
#[verifier::external_body]
fn parse_toml(text: &str) -> (parsed: Result<toml::Value, toml::de::Error>)
    ensures
        toml_document(text@) == match parsed {
            Ok(raw) => Some(toml_node(raw)),
            Err(_) => None,
        },
        parsed matches Ok(raw) ==> toml_node(raw) is Table && unique_tables(toml_node(raw)),
{
    text.parse::<toml::Table>().map(toml::Value::Table)
}

/// Tells the variants of `toml::Value` apart and moves what each holds
/// into the matching variant of `Node`, level by level.
#[verifier::external_body]
fn node_from_toml(raw: toml::Value) -> (node: Node)
    ensures
        node.deep_view() == toml_node(raw),
{
    match raw {
        Value::String(text) => Node::Text(text),
        Value::Integer(number) => Node::Integer(number),
        Value::Float(number) => Node::Real(number.to_string()),
        Value::Boolean(flag) => Node::Boolean(flag),
        Value::Datetime(moment) => Node::Moment(moment.to_string()),
        Value::Array(items) => Node::List(items.into_iter().map(node_from_toml).collect()),
        Value::Table(entries) => Node::Table(
            entries.into_iter().map(|(key, item)| (key, node_from_toml(item))).collect(),
        ),
    }
}

/// The message of a parse error, from its `Display`.
#[verifier::external_body]
fn error_text(error: &toml::de::Error) -> (message: String) {
    error.to_string()
}

/// What a value of the `toml` crate holds, where there is one.
pub open spec fn toml_built(built: Option<toml::Value>) -> Option<NodeModel> {
    match built {
        Some(raw) => Some(toml_node(raw)),
        None => None,
    }
}

/// Builds the `toml::Value` that stands for a `Node`, level by level. A
/// table goes through `toml::Table`, which orders its keys. There is none
/// where a number or a date does not parse.
#[verifier::external_body]
fn node_to_toml(doc: &Node) -> (built: Option<toml::Value>)
    ensures
        toml_normal(doc.deep_view()) == toml_built(built),
{
    Some(match doc {
        Node::Text(t) => Value::String(t.clone()),
        Node::Integer(n) => Value::Integer(*n),
        Node::Real(t) => Value::Float(t.parse().ok()?),
        Node::Boolean(b) => Value::Boolean(*b),
        Node::Moment(t) => Value::Datetime(t.parse().ok()?),
        Node::List(l) => Value::Array(l.iter().map(node_to_toml).collect::<Option<_>>()?),
        Node::Table(e) => Value::Table(
            e.iter().map(|(k, v)| Some((k.clone(), node_to_toml(v)?))).collect::<Option<_>>()?,
        ),
    })
}

/// Writes a value with `toml::to_string`. The text is named; there is
/// none where the crate reports an error.
#[verifier::external_body]
fn render_toml(raw: &toml::Value) -> (text: Option<String>)
    ensures
        text.deep_view() == toml_text(toml_node(*raw)),
{
    toml::to_string(raw).ok()
}

/// Why a text could not be read as a document.
#[derive(Debug, Clone, PartialEq, Eq)]
pub struct ParseError {
    /// What the parser said.
    pub message: String,
}

/// Reads a TOML document from its text. A document is a table, and no
/// table in it has a key twice.
pub fn parse_document(text: &str) -> (parsed: Result<Node, ParseError>)
    ensures
        toml_document(text@) == match parsed {
            Ok(doc) => Some(doc.deep_view()),
            Err(_) => None,
        },
        parsed matches Ok(doc) ==> doc.deep_view() is Table && unique_tables(doc.deep_view()),
{
    match parse_toml(text) {
        Ok(raw) => Ok(node_from_toml(raw)),
        Err(error) => Err(ParseError { message: error_text(&error) }),
    }
}

/// The text of a document as TOML writes it.
pub open spec fn rendered(doc: NodeModel) -> Option<Seq<char>> {
    match toml_normal(doc) {
        Some(normal) => toml_text(normal),
        None => None,
    }
}

/// Writes a document as TOML text. There is no text where the document
/// holds what TOML cannot write.
pub fn render_document(doc: &Node) -> (text: Option<String>)
    ensures
        text.deep_view() == rendered(doc.deep_view()),
{
    match node_to_toml(doc) {
        Some(raw) => render_toml(&raw),
        None => None,
    }
}

} // verus!
