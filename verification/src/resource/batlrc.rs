//! The `.batlrc` file at the root: how Battalion reaches its registry.

use vstd::prelude::*;
use crate::document::{
    entries_model, lemma_lookup_push, Node, NodeModel, parse_document, push_entry,
    render_document, rendered, table_node, text_node, toml_document,
};

verus! {

pub type BatlRcLatest = BatlRc0_2_2;

pub type BatlRc0_2_2 = BatlRc0_2_1;

pub type BatlRc = BatlRcLatest;

/// What a `.batlrc` holds.
#[derive(Debug, Clone, PartialEq, Eq)]
pub struct BatlRc0_2_1 {
    pub api: Api0_2_1,
}

/// How the registry is reached.
#[derive(Debug, Clone, PartialEq, Eq)]
pub struct Api0_2_1 {
    /// The key that the registry knows the user by.
    pub credentials: String,
}

/// The credentials that stand in a `.batlrc` until the user gives a key.
pub open spec fn unset_credentials() -> Seq<char> {
    "YOUR-KEY-GOES-HERE"@
}

impl DeepView for Api0_2_1 {
    type V = Seq<char>;

    open spec fn deep_view(&self) -> Seq<char> {
        self.credentials@
    }
}

impl DeepView for BatlRc0_2_1 {
    type V = Seq<char>;

    open spec fn deep_view(&self) -> Seq<char> {
        self.api.credentials@
    }
}

impl Default for Api0_2_1 {
    fn default() -> (api: Api0_2_1)
        ensures
            api.credentials@ == unset_credentials(),
    {
        Api0_2_1 { credentials: "YOUR-KEY-GOES-HERE".to_owned() }
    }
}

impl Default for BatlRc0_2_1 {
    fn default() -> (batlrc: BatlRc0_2_1)
        ensures
            batlrc.api.credentials@ == unset_credentials(),
    {
        BatlRc0_2_1 { api: Api0_2_1::default() }
    }
}

/// The credentials that a document states: the text `api.credentials`.
pub open spec fn credentials_of(doc: NodeModel) -> Option<Seq<char>> {
    match doc.field("api"@) {
        Some(api) => match api.field("credentials"@) {
            Some(credentials) => credentials.text(),
            None => None,
        },
        None => None,
    }
}

/// The document that states the given credentials.
pub open spec fn document_of(credentials: Seq<char>) -> NodeModel {
    NodeModel::Table(
        seq![
            (
                "api"@,
                NodeModel::Table(seq![("credentials"@, NodeModel::Text(credentials))]),
            ),
        ],
    )
}

/// The text of the file that credentials are saved as. Where they cannot
/// be written, the file is left empty.
pub open spec fn file_text(credentials: Seq<char>) -> Seq<char> {
    match rendered(document_of(credentials)) {
        Some(text) => text,
        None => Seq::empty(),
    }
}

/// Credentials are read back from the document that states them.
pub proof fn lemma_read_back(credentials: Seq<char>)
    ensures
        credentials_of(document_of(credentials)) == Some(credentials),
{
    let inner = ("credentials"@, NodeModel::Text(credentials));
    let outer = ("api"@, NodeModel::Table(seq![inner]));
    assert(seq![inner] =~= Seq::empty().push(inner));
    assert(seq![outer] =~= Seq::empty().push(outer));
    lemma_lookup_push(Seq::empty(), inner, "credentials"@);
    lemma_lookup_push(Seq::empty(), outer, "api"@);
}

impl BatlRc0_2_1 {
    /// Reads the record from a document, if the document states
    /// credentials.
    pub fn decode(doc: &Node) -> (batlrc: Option<BatlRc0_2_1>)
        ensures
            batlrc.deep_view() == credentials_of(doc.deep_view()),
    {
        match doc.get("api") {
            Some(api) => match api.get("credentials") {
                Some(credentials) => match credentials.as_text() {
                    Some(text) => Some(BatlRc0_2_1 { api: Api0_2_1 { credentials: text.clone() } }),
                    None => None,
                },
                None => None,
            },
            None => None,
        }
    }

    /// Reads the record from the text of a `.batlrc`. There is none where
    /// the text is no TOML, or states no credentials.
    pub fn read_toml(text: &str) -> (batlrc: Option<BatlRc0_2_1>)
        ensures
            batlrc.deep_view() == match toml_document(text@) {
                Some(doc) => credentials_of(doc),
                None => None,
            },
    {
        match parse_document(text) {
            Ok(doc) => BatlRc0_2_1::decode(&doc),
            Err(_) => None,
        }
    }

    /// The record as a document.
    pub fn encode(&self) -> (doc: Node)
        ensures
            doc.deep_view() == document_of(self.deep_view()),
    {
        let mut inner: Vec<(String, Node)> = Vec::new();
        assert(entries_model(inner@) =~= Seq::empty());
        push_entry(&mut inner, "credentials", text_node(self.api.credentials.as_str()));
        assert(entries_model(inner@) =~= seq![
            ("credentials"@, NodeModel::Text(self.api.credentials@)),
        ]);
        let mut outer: Vec<(String, Node)> = Vec::new();
        assert(entries_model(outer@) =~= Seq::empty());
        push_entry(&mut outer, "api", table_node(inner));
        assert(entries_model(outer@) =~= document_of(self.deep_view())->Table_0);
        table_node(outer)
    }

    /// The text of the file that the record is saved as.
    pub fn to_toml(&self) -> (text: String)
        ensures
            text@ == file_text(self.deep_view()),
    {
        match render_document(&self.encode()) {
            Some(text) => text,
            None => String::new(),
        }
    }
}

} // verus!
