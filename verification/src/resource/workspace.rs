//! Workspaces: their configuration under each schema, and their links.

use vstd::prelude::*;
use crate::document::{
    distinct_keys, entries_model, lemma_lookup_unique, Node, NodeModel, parse_document,
    ParseError, push_entry, render_document, rendered, table_node, toml_document, unique_tables,
};
use crate::error::{
    CreateResourceError, DeleteResourceError, GeneralResourceError, IoError, ReadConfigError,
};
use crate::keyed::{index_of_text, position, text_keys};
use crate::locate::{Answer, Request, Search, SearchModel, SearchState, step_model};
use crate::path::FsPath;
use crate::resource::{Name, Resource};
use crate::resource::decode::{
    decode_optional_dependencies, decode_optional_links, decode_optional_scripts, has_marker,
    marker_of, optional_dependencies, optional_links, optional_scripts, section_of,
};
use crate::resource::encode::{
    encode_environment, encode_optional_dependencies, encode_optional_links,
    encode_optional_scripts, environment_node, optional_dependencies_node, optional_links_node,
    optional_scripts_node, push_optional, section_node, with_entry,
};
use crate::resource::read_back::{
    lemma_dependencies_read_back, lemma_dependencies_well_keyed, lemma_environment_read_back,
    lemma_keys, lemma_links_read_back, lemma_links_well_keyed, lemma_lookup_pair,
    lemma_lookup_with_entry, lemma_scripts_read_back, lemma_scripts_well_keyed,
    lemma_section_read_back, plain_dependencies, plain_links, plain_name, written_form,
};
use crate::resource::tomlconfig::{
    clone_dependencies, clone_links, clone_scripts, ConfigModel, Dependencies0_2_0,
    Dependencies0_2_1, Dependencies0_2_2, entries_or_none, Environment0_2_0, Environment0_2_1,
    Environment0_2_2, hashmap_to_option_hashmap, kept, Links0_2_0, Links0_2_1, Links0_2_2, Schema,
    Scripts0_2_0, Scripts0_2_1, Scripts0_2_2, SectionModel, well_keyed, Workspace0_2_0,
    Workspace0_2_1, Workspace0_2_2,
};
use crate::version::{
    literal_0_2_0, literal_0_2_1, literal_0_2_2, plain_version, SemVer, semver_parsed,
    semver_text, Version0_2_0, Version0_2_1, Version0_2_2,
};

verus! {

pub type TomlConfigLatest = TomlConfig0_2_2;

/// A workspace's `batl.toml` under schema 0.2.2.
#[derive(Debug, Clone, PartialEq, Eq)]
pub struct TomlConfig0_2_2 {
    pub environment: Environment0_2_2,
    pub workspace: Workspace0_2_2,
    pub links: Option<Links0_2_2>,
    pub scripts: Option<Scripts0_2_2>,
    pub dependencies: Option<Dependencies0_2_2>,
}

/// A workspace's `batl.toml` under schema 0.2.1: the workspace is
/// described under `repository`, and its links stand under `workspace`.
#[derive(Debug, Clone, PartialEq, Eq)]
pub struct TomlConfig0_2_1 {
    pub environment: Environment0_2_1,
    pub repository: Workspace0_2_1,
    pub workspace: Option<Links0_2_1>,
    pub scripts: Option<Scripts0_2_1>,
    pub dependencies: Option<Dependencies0_2_1>,
}

/// A workspace's `batl.toml` under schema 0.2.0, laid out as under 0.2.1.
#[derive(Debug, Clone, PartialEq, Eq)]
pub struct TomlConfig0_2_0 {
    pub environment: Environment0_2_0,
    pub repository: Workspace0_2_0,
    pub workspace: Option<Links0_2_0>,
    pub scripts: Option<Scripts0_2_0>,
    pub dependencies: Option<Dependencies0_2_0>,
}

/// A workspace's `batl.toml` under whichever schema it was written.
#[derive(Debug)]
pub enum AnyTomlConfig {
    V0_2_2(TomlConfig0_2_2),
    V0_2_1(TomlConfig0_2_1),
    V0_2_0(TomlConfig0_2_0),
}

impl DeepView for TomlConfig0_2_2 {
    type V = ConfigModel;

    open spec fn deep_view(&self) -> ConfigModel {
        ConfigModel {
            section: self.workspace.deep_view(),
            links: self.links.deep_view(),
            scripts: self.scripts.deep_view(),
            dependencies: self.dependencies.deep_view(),
            restrict: None,
        }
    }
}

impl DeepView for TomlConfig0_2_1 {
    type V = ConfigModel;

    open spec fn deep_view(&self) -> ConfigModel {
        ConfigModel {
            section: self.repository.deep_view(),
            links: self.workspace.deep_view(),
            scripts: self.scripts.deep_view(),
            dependencies: self.dependencies.deep_view(),
            restrict: None,
        }
    }
}

impl DeepView for TomlConfig0_2_0 {
    type V = ConfigModel;

    open spec fn deep_view(&self) -> ConfigModel {
        ConfigModel {
            section: self.repository.deep_view(),
            links: self.workspace.deep_view(),
            scripts: self.scripts.deep_view(),
            dependencies: self.dependencies.deep_view(),
            restrict: None,
        }
    }
}

impl DeepView for AnyTomlConfig {
    type V = ConfigModel;

    open spec fn deep_view(&self) -> ConfigModel {
        match self {
            AnyTomlConfig::V0_2_2(config) => config.deep_view(),
            AnyTomlConfig::V0_2_1(config) => config.deep_view(),
            AnyTomlConfig::V0_2_0(config) => config.deep_view(),
        }
    }
}

/// What a document says under schema 0.2.2, if it fits the schema: it
/// carries the marker, describes the workspace under `workspace`, and
/// such maps as it has are well made.
pub open spec fn shape_0_2_2(doc: NodeModel) -> Option<ConfigModel> {
    if marker_of(doc) == Some(literal_0_2_2()) {
        match doc.field("workspace"@) {
            Some(section) => match (
                section_of(section, false, false),
                optional_links(doc.field("links"@)),
                optional_scripts(doc.field("scripts"@)),
                optional_dependencies(doc.field("dependencies"@)),
            ) {
                (Some(section), Some(links), Some(scripts), Some(dependencies)) => Some(
                    ConfigModel { section, links, scripts, dependencies, restrict: None },
                ),
                _ => None,
            },
            None => None,
        }
    } else {
        None
    }
}

/// What a document says under an earlier schema, if it fits: it carries
/// that schema's marker, describes the workspace under `repository`, and
/// has its links, if any, under `workspace`.
pub open spec fn shape_before(doc: NodeModel, literal: Seq<char>) -> Option<ConfigModel> {
    if marker_of(doc) == Some(literal) {
        match doc.field("repository"@) {
            Some(section) => match (
                section_of(section, true, false),
                optional_links(doc.field("workspace"@)),
                optional_scripts(doc.field("scripts"@)),
                optional_dependencies(doc.field("dependencies"@)),
            ) {
                (Some(section), Some(links), Some(scripts), Some(dependencies)) => Some(
                    ConfigModel { section, links, scripts, dependencies, restrict: None },
                ),
                _ => None,
            },
            None => None,
        }
    } else {
        None
    }
}

/// The schema that a document is read under, and what it says there: the
/// newest schema that the document fits.
pub open spec fn resolved(doc: NodeModel) -> Option<(Schema, ConfigModel)> {
    match shape_0_2_2(doc) {
        Some(config) => Some((Schema::V0_2_2, config)),
        None => match shape_before(doc, literal_0_2_1()) {
            Some(config) => Some((Schema::V0_2_1, config)),
            None => match shape_before(doc, literal_0_2_0()) {
                Some(config) => Some((Schema::V0_2_0, config)),
                None => None,
            },
        },
    }
}

/// What a record of an earlier schema says once it is brought up to the
/// latest: the same, but for the build command, which is no more.
pub open spec fn upgraded(config: ConfigModel) -> ConfigModel {
    ConfigModel {
        section: SectionModel {
            name: config.section.name,
            version: config.section.version,
            build: None,
            git: config.section.git,
        },
        links: config.links,
        scripts: config.scripts,
        dependencies: config.dependencies,
        restrict: config.restrict,
    }
}

/// The document that a record of the latest schema is written as, given
/// the text of its version.
pub open spec fn document_of(config: ConfigModel, version: Seq<char>) -> NodeModel {
    NodeModel::Table(
        with_entry(
            with_entry(
                with_entry(
                    seq![
                        ("environment"@, environment_node(literal_0_2_2())),
                        ("workspace"@, section_node(config.section, version)),
                    ],
                    "links"@,
                    optional_links_node(config.links),
                ),
                "scripts"@,
                optional_scripts_node(config.scripts),
            ),
            "dependencies"@,
            optional_dependencies_node(config.dependencies),
        ),
    )
}

/// The document that a record of the latest schema is written as. There
/// is none where the version has no text.
pub open spec fn written(config: ConfigModel) -> Option<NodeModel> {
    match semver_text(config.section.version) {
        Some(version) => Some(document_of(config, version)),
        None => None,
    }
}

/// The text of the file that a record is saved as. Where the record
/// cannot be written, the file is left empty.
pub open spec fn file_text(config: ConfigModel) -> Seq<char> {
    match written(config) {
        Some(doc) => match rendered(doc) {
            Some(text) => text,
            None => Seq::empty(),
        },
        None => Seq::empty(),
    }
}

impl TomlConfig0_2_2 {
    /// Reads the record from a document, if the document fits the schema.
    pub fn decode(doc: &Node) -> (config: Option<TomlConfig0_2_2>)
        ensures
            config.deep_view() == shape_0_2_2(doc.deep_view()),
    {
        if !has_marker(doc, Version0_2_2.as_str()) {
            return None;
        }
        let workspace = match doc.get("workspace") {
            Some(section) => Workspace0_2_2::decode(section),
            None => {
                return None;
            },
        };
        let links = decode_optional_links(doc.get("links"));
        let scripts = decode_optional_scripts(doc.get("scripts"));
        let dependencies = decode_optional_dependencies(doc.get("dependencies"));
        match (workspace, links, scripts, dependencies) {
            (Some(workspace), Some(links), Some(scripts), Some(dependencies)) => Some(
                TomlConfig0_2_2 {
                    environment: Environment0_2_2 { version: Version0_2_2 },
                    workspace,
                    links,
                    scripts,
                    dependencies,
                },
            ),
            _ => None,
        }
    }

    /// The record as a document. There is none where the version has no
    /// text. A map that the record does not have is not written.
    pub fn encode(&self) -> (doc: Option<Node>)
        ensures
            doc.deep_view() == written(self.deep_view()),
    {
        let section = match self.workspace.encode() {
            Some(section) => section,
            None => {
                return None;
            },
        };
        let mut entries: Vec<(String, Node)> = Vec::new();
        assert(entries_model(entries@) =~= Seq::empty());
        push_entry(&mut entries, "environment", encode_environment(Version0_2_2.as_str()));
        push_entry(&mut entries, "workspace", section);
        assert(entries_model(entries@) =~= seq![
            ("environment"@, environment_node(literal_0_2_2())),
            (
                "workspace"@,
                section_node(
                    self.workspace.deep_view(),
                    semver_text(self.workspace.version.deep_view()).unwrap(),
                ),
            ),
        ]);
        let links = encode_optional_links(&self.links);
        push_optional(&mut entries, "links", links);
        let scripts = encode_optional_scripts(&self.scripts);
        push_optional(&mut entries, "scripts", scripts);
        let dependencies = encode_optional_dependencies(&self.dependencies);
        push_optional(&mut entries, "dependencies", dependencies);
        Some(table_node(entries))
    }

    /// The text of the file that the record is saved as.
    pub fn to_toml(&self) -> (text: String)
        ensures
            text@ == file_text(self.deep_view()),
    {
        match self.encode() {
            Some(doc) => match render_document(&doc) {
                Some(text) => text,
                None => String::new(),
            },
            None => String::new(),
        }
    }
}

impl TomlConfig0_2_1 {
    /// Reads the record from a document, if the document fits the schema.
    pub fn decode(doc: &Node) -> (config: Option<TomlConfig0_2_1>)
        ensures
            config.deep_view() == shape_before(doc.deep_view(), literal_0_2_1()),
    {
        if !has_marker(doc, Version0_2_1.as_str()) {
            return None;
        }
        let repository = match doc.get("repository") {
            Some(section) => Workspace0_2_1::decode(section),
            None => {
                return None;
            },
        };
        let links = decode_optional_links(doc.get("workspace"));
        let scripts = decode_optional_scripts(doc.get("scripts"));
        let dependencies = decode_optional_dependencies(doc.get("dependencies"));
        match (repository, links, scripts, dependencies) {
            (Some(repository), Some(links), Some(scripts), Some(dependencies)) => Some(
                TomlConfig0_2_1 {
                    environment: Environment0_2_1 { version: Version0_2_1 },
                    repository,
                    workspace: links,
                    scripts,
                    dependencies,
                },
            ),
            _ => None,
        }
    }

    /// The record under the latest schema: what describes the workspace
    /// moves to `workspace`, the links to `links`, and every map is kept
    /// as it is.
    pub fn upgrade(self) -> (latest: TomlConfigLatest)
        ensures
            latest == (TomlConfig0_2_2 {
                environment: Environment0_2_2 { version: Version0_2_2 },
                workspace: Workspace0_2_2 {
                    name: self.repository.name,
                    version: self.repository.version,
                },
                links: self.workspace,
                scripts: self.scripts,
                dependencies: self.dependencies,
            }),
            latest.deep_view() == upgraded(self.deep_view()),
    {
        TomlConfig0_2_2 {
            environment: Environment0_2_2 { version: Version0_2_2 },
            workspace: Workspace0_2_2 {
                name: self.repository.name,
                version: self.repository.version,
            },
            links: self.workspace,
            scripts: self.scripts,
            dependencies: self.dependencies,
        }
    }
}

impl TomlConfig0_2_0 {
    /// Reads the record from a document, if the document fits the schema.
    pub fn decode(doc: &Node) -> (config: Option<TomlConfig0_2_0>)
        ensures
            config.deep_view() == shape_before(doc.deep_view(), literal_0_2_0()),
    {
        if !has_marker(doc, Version0_2_0.as_str()) {
            return None;
        }
        let repository = match doc.get("repository") {
            Some(section) => Workspace0_2_0::decode(section),
            None => {
                return None;
            },
        };
        let links = decode_optional_links(doc.get("workspace"));
        let scripts = decode_optional_scripts(doc.get("scripts"));
        let dependencies = decode_optional_dependencies(doc.get("dependencies"));
        match (repository, links, scripts, dependencies) {
            (Some(repository), Some(links), Some(scripts), Some(dependencies)) => Some(
                TomlConfig0_2_0 {
                    environment: Environment0_2_0 { version: Version0_2_0 },
                    repository,
                    workspace: links,
                    scripts,
                    dependencies,
                },
            ),
            _ => None,
        }
    }

    /// The record under the latest schema: what describes the workspace
    /// moves to `workspace`, the links to `links`, and every map is kept
    /// as it is.
    pub fn upgrade(self) -> (latest: TomlConfigLatest)
        ensures
            latest == (TomlConfig0_2_2 {
                environment: Environment0_2_2 { version: Version0_2_2 },
                workspace: Workspace0_2_2 {
                    name: self.repository.name,
                    version: self.repository.version,
                },
                links: self.workspace,
                scripts: self.scripts,
                dependencies: self.dependencies,
            }),
            latest.deep_view() == upgraded(self.deep_view()),
    {
        TomlConfig0_2_2 {
            environment: Environment0_2_2 { version: Version0_2_2 },
            workspace: Workspace0_2_2 {
                name: self.repository.name,
                version: self.repository.version,
            },
            links: self.workspace,
            scripts: self.scripts,
            dependencies: self.dependencies,
        }
    }
}

impl AnyTomlConfig {
    /// The schema that the record was written under.
    pub fn schema(&self) -> (schema: Schema)
        ensures
            schema == self.spec_schema(),
    {
        match self {
            AnyTomlConfig::V0_2_2(_) => Schema::V0_2_2,
            AnyTomlConfig::V0_2_1(_) => Schema::V0_2_1,
            AnyTomlConfig::V0_2_0(_) => Schema::V0_2_0,
        }
    }

    /// The schema that the record was written under.
    pub open spec fn spec_schema(&self) -> Schema {
        match self {
            AnyTomlConfig::V0_2_2(_) => Schema::V0_2_2,
            AnyTomlConfig::V0_2_1(_) => Schema::V0_2_1,
            AnyTomlConfig::V0_2_0(_) => Schema::V0_2_0,
        }
    }

    /// The record under the latest schema.
    pub open spec fn spec_upgrade(self) -> TomlConfigLatest {
        match self {
            AnyTomlConfig::V0_2_2(config) => config,
            AnyTomlConfig::V0_2_1(config) => TomlConfig0_2_2 {
                environment: Environment0_2_2 { version: Version0_2_2 },
                workspace: Workspace0_2_2 {
                    name: config.repository.name,
                    version: config.repository.version,
                },
                links: config.workspace,
                scripts: config.scripts,
                dependencies: config.dependencies,
            },
            AnyTomlConfig::V0_2_0(config) => TomlConfig0_2_2 {
                environment: Environment0_2_2 { version: Version0_2_2 },
                workspace: Workspace0_2_2 {
                    name: config.repository.name,
                    version: config.repository.version,
                },
                links: config.workspace,
                scripts: config.scripts,
                dependencies: config.dependencies,
            },
        }
    }

    /// Reads a record from a document under the newest schema that the
    /// document fits. A document that fits none is invalid.
    pub fn from_document(doc: &Node) -> (read: Result<AnyTomlConfig, ReadConfigError>)
        ensures
            match read {
                Ok(config) => resolved(doc.deep_view()) == Some(
                    (config.spec_schema(), config.deep_view()),
                ),
                Err(error) => resolved(doc.deep_view()) is None && error is TomlError,
            },
    {
        if let Some(config) = TomlConfig0_2_2::decode(doc) {
            return Ok(AnyTomlConfig::V0_2_2(config));
        }
        if let Some(config) = TomlConfig0_2_1::decode(doc) {
            return Ok(AnyTomlConfig::V0_2_1(config));
        }
        if let Some(config) = TomlConfig0_2_0::decode(doc) {
            return Ok(AnyTomlConfig::V0_2_0(config));
        }
        Err(
            ReadConfigError::TomlError(
                ParseError { message: "no known schema fits the document".to_owned() },
            ),
        )
    }

    /// Reads a record from the text of a `batl.toml`.
    pub fn read_toml(text: &str) -> (read: Result<AnyTomlConfig, ReadConfigError>)
        ensures
            match read {
                Ok(config) => well_keyed(config.deep_view()) && match toml_document(text@) {
                    Some(doc) => resolved(doc) == Some((config.spec_schema(), config.deep_view())),
                    None => false,
                },
                Err(error) => error is TomlError && match toml_document(text@) {
                    Some(doc) => resolved(doc) is None,
                    None => true,
                },
            },
    {
        match parse_document(text) {
            Ok(doc) => {
                let read = AnyTomlConfig::from_document(&doc);
                proof {
                    if read is Ok {
                        lemma_read_is_well_keyed(doc.deep_view());
                    }
                }
                read
            },
            Err(error) => Err(ReadConfigError::TomlError(error)),
        }
    }

    /// The record under the latest schema. A record of the latest schema
    /// is returned as it is.
    pub fn upgrade(self) -> (latest: TomlConfigLatest)
        ensures
            latest == self.spec_upgrade(),
            latest.deep_view() == upgraded(self.deep_view()),
    {
        match self {
            AnyTomlConfig::V0_2_2(config) => config,
            AnyTomlConfig::V0_2_1(config) => config.upgrade(),
            AnyTomlConfig::V0_2_0(config) => config.upgrade(),
        }
    }
}

/// What a file holds as a workspace's record under the latest schema. A
/// file that could not be read is an error of its own, and so is one that
/// no known schema fits.
pub fn read(file: Result<String, IoError>) -> (read: Result<TomlConfigLatest, ReadConfigError>)
    ensures
        match file {
            Ok(text) => match toml_document(text@) {
                Some(doc) => match resolved(doc) {
                    Some((_, config)) => read matches Ok(record) && record.deep_view()
                        == upgraded(config) && well_keyed(record.deep_view()),
                    None => read matches Err(ReadConfigError::TomlError(_)),
                },
                None => read matches Err(ReadConfigError::TomlError(_)),
            },
            Err(error) => read == Err::<TomlConfigLatest, ReadConfigError>(
                ReadConfigError::IoError(error),
            ),
        },
{
    match file {
        Ok(text) => match AnyTomlConfig::read_toml(text.as_str()) {
            Ok(config) => Ok(config.upgrade()),
            Err(error) => Err(error),
        },
        Err(error) => Err(ReadConfigError::IoError(error)),
    }
}

/// What a workspace is configured to be, whatever schema it was read from.
#[derive(Debug, Clone, PartialEq, Eq)]
pub struct Config {
    pub name: Name,
    pub version: SemVer,
    pub links: Links0_2_2,
    pub scripts: Scripts0_2_2,
    pub dependencies: Dependencies0_2_2,
}

impl Config {
    /// What a record of the latest schema configures: a map that the
    /// record does not have is empty.
    pub fn from_record(record: TomlConfig0_2_2) -> (config: Config)
        ensures
            config.name == record.workspace.name,
            config.version == record.workspace.version,
            config.links.deep_view() == entries_or_none(record.links.deep_view()),
            config.scripts.deep_view() == entries_or_none(record.scripts.deep_view()),
            config.dependencies.deep_view() == entries_or_none(record.dependencies.deep_view()),
            well_keyed(record.deep_view()) ==> config.wf(),
    {
        let links = match record.links {
            Some(links) => links,
            None => Vec::new(),
        };
        let scripts = match record.scripts {
            Some(scripts) => scripts,
            None => Vec::new(),
        };
        let dependencies = match record.dependencies {
            Some(dependencies) => dependencies,
            None => Vec::new(),
        };
        assert(links.deep_view() =~= entries_or_none(record.links.deep_view()));
        assert(scripts.deep_view() =~= entries_or_none(record.scripts.deep_view()));
        assert(dependencies.deep_view() =~= entries_or_none(record.dependencies.deep_view()));
        Config {
            name: record.workspace.name,
            version: record.workspace.version,
            links,
            scripts,
            dependencies,
        }
    }

    /// Whether every map of the configuration is a map: no link, script
    /// or dependency occurs twice.
    pub open spec fn wf(&self) -> bool {
        &&& distinct_keys(self.links.deep_view())
        &&& distinct_keys(self.scripts.deep_view())
        &&& distinct_keys(self.dependencies.deep_view())
    }

    /// What the record of this configuration says: an empty map is left
    /// out of it.
    pub open spec fn record_model(&self) -> ConfigModel {
        ConfigModel {
            section: SectionModel {
                name: self.name@,
                version: self.version.deep_view(),
                build: None,
                git: None,
            },
            links: kept(self.links.deep_view()),
            scripts: kept(self.scripts.deep_view()),
            dependencies: kept(self.dependencies.deep_view()),
            restrict: None,
        }
    }

    /// The record of this configuration under the latest schema. An empty
    /// map is left out of it.
    pub fn into_record(self) -> (record: TomlConfigLatest)
        ensures
            record.deep_view() == self.record_model(),
            record.workspace.name == self.name,
            record.workspace.version == self.version,
            record.links is None <==> self.links@.len() == 0,
            record.scripts is None <==> self.scripts@.len() == 0,
            record.dependencies is None <==> self.dependencies@.len() == 0,
            self.wf() ==> well_keyed(record.deep_view()),
    {
        TomlConfig0_2_2 {
            environment: Environment0_2_2 { version: Version0_2_2 },
            workspace: Workspace0_2_2 { name: self.name, version: self.version },
            links: hashmap_to_option_hashmap(self.links),
            scripts: hashmap_to_option_hashmap(self.scripts),
            dependencies: hashmap_to_option_hashmap(self.dependencies),
        }
    }

    /// The record of this configuration under the latest schema, as
    /// `into_record` gives it.
    pub fn to_record(&self) -> (record: TomlConfigLatest)
        ensures
            record.deep_view() == self.record_model(),
    {
        let copy = Config {
            name: self.name.clone(),
            version: self.version.clone(),
            links: clone_links(&self.links),
            scripts: clone_scripts(&self.scripts),
            dependencies: clone_dependencies(&self.dependencies),
        };
        copy.into_record()
    }

    /// The text of the file that this configuration is saved as.
    pub fn to_toml(&self) -> (text: String)
        ensures
            text@ == file_text(self.record_model()),
    {
        self.to_record().to_toml()
    }
}

/// Whether `config` is what a record that says `record` configures: a
/// map that the record does not have is empty.
pub open spec fn configures(record: ConfigModel, config: Config) -> bool {
    &&& config.name@ == record.section.name
    &&& config.version.deep_view() == record.section.version
    &&& config.links.deep_view() == entries_or_none(record.links)
    &&& config.scripts.deep_view() == entries_or_none(record.scripts)
    &&& config.dependencies.deep_view() == entries_or_none(record.dependencies)
}

/// A workspace: where it lies, how it is configured, what it is called.
#[derive(Debug)]
pub struct Workspace {
    /// The path of the workspace in the filesystem.
    pub path: FsPath,
    /// The configuration of the workspace.
    pub config: Config,
    /// The name of the workspace.
    pub name: Name,
}

impl Workspace {
    /// The record that a new workspace of the given name is created with:
    /// version 0.1.0, and no links, scripts or dependencies.
    pub fn initial_record(name: Name) -> (record: TomlConfigLatest)
        ensures
            record.workspace.name == name,
            record.workspace.version.deep_view() == plain_version(0, 1, 0),
            record.links is None,
            record.scripts is None,
            record.dependencies is None,
    {
        TomlConfig0_2_2 {
            environment: Environment0_2_2 { version: Version0_2_2 },
            workspace: Workspace0_2_2 { name, version: SemVer::new(0, 1, 0) },
            links: None,
            scripts: None,
            dependencies: None,
        }
    }

    /// The workspace of the given name that lies at `path` with `record`.
    pub fn new(path: FsPath, record: TomlConfigLatest, name: Name) -> (workspace: Workspace)
        ensures
            workspace.path == path,
            workspace.name == name,
            workspace.config.name == record.workspace.name,
            workspace.config.version == record.workspace.version,
            configures(record.deep_view(), workspace.config),
            well_keyed(record.deep_view()) ==> workspace.config.wf(),
    {
        Workspace { path, config: Config::from_record(record), name }
    }

    /// The workspace that lies at `path` with `record`. It is called what
    /// the path says.
    pub fn from_path(path: FsPath, record: TomlConfigLatest) -> (workspace: Workspace)
        ensures
            workspace.path == path,
            workspace.name@ == crate::resource::decode_path(path@.components),
            workspace.config.name == record.workspace.name,
            workspace.config.version == record.workspace.version,
            configures(record.deep_view(), workspace.config),
            well_keyed(record.deep_view()) ==> workspace.config.wf(),
    {
        let name = Name::from_path(&path);
        Workspace { path, config: Config::from_record(record), name }
    }

    /// The path of the workspace in the filesystem.
    pub fn path(&self) -> (path: &FsPath)
        ensures
            *path == self.path,
    {
        &self.path
    }

    /// The name of the workspace.
    pub fn name(&self) -> (name: &Name)
        ensures
            *name == self.name,
    {
        &self.name
    }

    /// The configuration of the workspace.
    pub fn config(&self) -> (config: &Config)
        ensures
            *config == self.config,
    {
        &self.config
    }

    /// The links of the workspace. Each gives access to a repository.
    pub fn links(&self) -> (links: &Links0_2_2)
        ensures
            *links == self.config.links,
    {
        &self.config.links
    }

    /// The repository that the link called `name` stands for, if there is
    /// such a link.
    pub fn link(&self, name: &str) -> (repository: Option<&Name>)
        ensures
            match position(text_keys(self.config.links@), name@) {
                Some(i) => repository == Some(&self.config.links@[i].1),
                None => repository is None,
            },
    {
        match index_of_text(&self.config.links, name) {
            Some(i) => {
                proof {
                    crate::keyed::lemma_position(text_keys(self.config.links@), name@);
                }
                Some(&self.config.links[i].1)
            },
            None => None,
        }
    }

    /// Adds a link called `name` to the repository `repository`. A name
    /// that is taken is refused, and nothing changes.
    pub fn create_link(&mut self, name: &str, repository: &Name) -> (created: Result<
        (),
        CreateResourceError,
    >)
        ensures
            match created {
                Ok(()) => {
                    &&& position(text_keys(old(self).config.links@), name@) is None
                    &&& final(self).config.links.deep_view() == old(
                        self,
                    ).config.links.deep_view().push((name@, repository@))
                    &&& final(self).path == old(self).path
                    &&& final(self).name == old(self).name
                    &&& final(self).config.name == old(self).config.name
                    &&& final(self).config.version == old(self).config.version
                    &&& final(self).config.scripts == old(self).config.scripts
                    &&& final(self).config.dependencies == old(self).config.dependencies
                    &&& old(self).config.wf() ==> final(self).config.wf()
                },
                Err(error) => {
                    &&& position(text_keys(old(self).config.links@), name@) is Some
                    &&& error == CreateResourceError::AlreadyExists
                    &&& *final(self) == *old(self)
                },
            },
    {
        if index_of_text(&self.config.links, name).is_some() {
            return Err(CreateResourceError::AlreadyExists);
        }
        let ghost before = self.config.links.deep_view();
        proof {
            crate::keyed::lemma_position(text_keys(self.config.links@), name@);
            assert forall|j: int| 0 <= j < before.len() implies before[j].0 != name@ by {
                assert(text_keys(self.config.links@)[j] == before[j].0);
            }
        }
        self.config.links.push((name.to_owned(), repository.clone()));
        assert(self.config.links.deep_view() =~= before.push((name@, repository@)));
        Ok(())
    }

    /// Removes the link called `name`. Where there is none, nothing
    /// changes.
    pub fn unlink(&mut self, name: &str) -> (removed: Result<(), DeleteResourceError>)
        ensures
            match removed {
                Ok(()) => {
                    &&& position(text_keys(old(self).config.links@), name@) is Some
                    &&& final(self).config.links.deep_view() == old(
                        self,
                    ).config.links.deep_view().remove(
                        position(text_keys(old(self).config.links@), name@).unwrap(),
                    )
                    &&& final(self).path == old(self).path
                    &&& final(self).name == old(self).name
                    &&& final(self).config.name == old(self).config.name
                    &&& final(self).config.version == old(self).config.version
                    &&& final(self).config.scripts == old(self).config.scripts
                    &&& final(self).config.dependencies == old(self).config.dependencies
                    &&& old(self).config.wf() ==> final(self).config.wf()
                },
                Err(error) => {
                    &&& position(text_keys(old(self).config.links@), name@) is None
                    &&& error == DeleteResourceError::DoesNotExist
                    &&& *final(self) == *old(self)
                },
            },
    {
        match index_of_text(&self.config.links, name) {
            Some(i) => {
                proof {
                    crate::keyed::lemma_position(text_keys(self.config.links@), name@);
                }
                let ghost before = self.config.links.deep_view();
                self.config.links.remove(i);
                assert(self.config.links.deep_view() =~= before.remove(i as int));
                Ok(())
            },
            None => Err(DeleteResourceError::DoesNotExist),
        }
    }

    /// The workspace called `name` that lies at `path`, given what was
    /// read of its `batl.toml`. A file that is not there means that the
    /// workspace does not exist; one that no schema fits, that it is
    /// invalid.
    pub fn load(path: FsPath, file: Result<String, IoError>, name: Name) -> (loaded: Result<
        Workspace,
        GeneralResourceError,
    >)
        ensures
            match loaded {
                Ok(workspace) => {
                    &&& workspace.path == path
                    &&& workspace.name == name
                    &&& file matches Ok(text) && toml_document(text@) matches Some(doc)
                        && resolved(doc) matches Some((_, record)) && configures(
                        upgraded(record),
                        workspace.config,
                    )
                    &&& workspace.config.wf()
                },
                Err(error) => match file {
                    Ok(text) => error == GeneralResourceError::Invalid && (toml_document(text@)
                        matches Some(doc) ==> resolved(doc) is None),
                    Err(io) => error == ReadConfigError::IoError(io).general(),
                },
            },
    {
        match read(file) {
            Ok(record) => Ok(Workspace::new(path, record, name)),
            Err(error) => Err(GeneralResourceError::from(error)),
        }
    }

    /// The workspace that is created under the name `name`, where `root`
    /// is the root of workspaces. Without a root, Battalion is not set up.
    pub fn create(root: Option<&FsPath>, name: Name) -> (created: Result<
        Workspace,
        CreateResourceError,
    >)
        ensures
            match root {
                Some(root) => created matches Ok(workspace) && workspace.name == name
                    && workspace.path@ == root@.join_path(
                    crate::path::PathModel {
                        anchor: Seq::empty(),
                        components: crate::resource::encode_path(name@),
                    },
                ) && workspace.config.name@ == name@ && workspace.config.version.deep_view()
                    == plain_version(0, 1, 0) && workspace.config.links.deep_view().len() == 0
                    && workspace.config.scripts.deep_view().len() == 0
                    && workspace.config.dependencies.deep_view().len() == 0
                    && workspace.config.wf(),
                None => created == Err::<Workspace, CreateResourceError>(
                    CreateResourceError::NotSetup,
                ),
            },
    {
        match root {
            Some(root) => {
                let path = root.join_path(&name.to_path());
                let record = Workspace::initial_record(name.clone());
                Ok(Workspace::new(path, record, name))
            },
            None => Err(CreateResourceError::NotSetup),
        }
    }

    /// The text of the `batl.toml` that the workspace is saved as.
    pub fn to_toml(&self) -> (text: String)
        ensures
            text@ == file_text(self.config.record_model()),
    {
        self.config.to_toml()
    }
}

impl Resource for Workspace {
    type Config = Config;

    open spec fn spec_path(&self) -> FsPath {
        self.path
    }

    open spec fn spec_name(&self) -> Name {
        self.name
    }

    open spec fn spec_config(&self) -> Config {
        self.config
    }

    fn path(&self) -> (path: &FsPath) {
        &self.path
    }

    fn name(&self) -> (name: &Name) {
        &self.name
    }

    fn config(&self) -> (config: &Config) {
        &self.config
    }
}

/// Whether what was read of a file is a workspace's record under a known
/// schema.
pub open spec fn readable(file: Result<String, IoError>) -> bool {
    file matches Ok(text) && toml_document(text@) matches Some(doc) && resolved(doc) is Some
}

/// What a readable file says, brought up to the latest schema.
pub open spec fn record_read(file: Result<String, IoError>) -> ConfigModel
    recommends
        readable(file),
{
    upgraded(resolved(toml_document(file->Ok_0@).unwrap()).unwrap().1)
}

/// The search for the nearest `batl.toml`, from a directory upward, that
/// is a workspace's: the search asks, the caller looks at the disk, and
/// what is read is judged here.
#[derive(Debug)]
pub struct Loading {
    /// Where the search stands.
    pub search: Search,
    /// The record of the file that ended the search.
    pub record: Option<TomlConfigLatest>,
}

impl Loading {
    /// The name of the file that configures a resource.
    pub fn file_name() -> (name: &'static str)
        ensures
            name@ == "batl.toml"@,
    {
        "batl.toml"
    }

    /// A search that starts at `start`.
    pub fn start(start: &FsPath) -> (loading: Loading)
        ensures
            loading.search.file_name@ == "batl.toml"@,
            loading.search.parsing,
            loading.search.state.deep_view() == SearchModel::Probing(start@),
            loading.record is None,
    {
        Loading { search: Search::locate(start, Loading::file_name()), record: None }
    }

    /// What the search asks next.
    pub fn request(&self) -> (request: Request)
        ensures
            match self.search.state.deep_view() {
                SearchModel::Probing(dir) => request matches Request::Exists(file) && file@
                    == dir.join(self.search.file_name@),
                SearchModel::Reading(dir) => request matches Request::Read(file) && file@
                    == dir.join(self.search.file_name@),
                SearchModel::Found(dir) => request matches Request::Done(Some(found)) && found@
                    == dir,
                SearchModel::Exhausted => request matches Request::Done(None),
            },
    {
        self.search.request()
    }

    /// The search after the caller has said whether the file exists.
    pub fn probed(self, exists: bool) -> (next: Loading)
        ensures
            next.search.file_name == self.search.file_name,
            next.search.parsing == self.search.parsing,
            next.search.state.deep_view() == step_model(
                self.search.state.deep_view(),
                self.search.parsing,
                Answer::Exists(exists),
            ),
            next.record == self.record,
    {
        Loading { search: self.search.step(Answer::Exists(exists)), record: self.record }
    }

    /// The search after the caller has read the file, or failed to. A
    /// file that is a record under a known schema ends the search, and
    /// its record is kept; any other sends the search upward.
    pub fn contents(self, file: Result<String, IoError>) -> (next: Loading)
        ensures
            next.search.file_name == self.search.file_name,
            next.search.parsing == self.search.parsing,
            next.search.state.deep_view() == step_model(
                self.search.state.deep_view(),
                self.search.parsing,
                Answer::Parsed(readable(file)),
            ),
            if self.search.state is Reading && readable(file) {
                next.record matches Some(record) && record.deep_view() == record_read(file)
            } else {
                next.record == self.record
            },
    {
        let asked = match &self.search.state {
            SearchState::Reading(_) => true,
            _ => false,
        };
        match read(file) {
            Ok(record) => Loading {
                search: self.search.step(Answer::Parsed(true)),
                record: if asked {
                    Some(record)
                } else {
                    self.record
                },
            },
            Err(_) => Loading {
                search: self.search.step(Answer::Parsed(false)),
                record: self.record,
            },
        }
    }

    /// The file that the search has found, with its directory first.
    pub fn located(&self) -> (file: Option<FsPath>)
        ensures
            file.deep_view() == match self.search.state.deep_view() {
                SearchModel::Found(dir) => Some(dir.join(self.search.file_name@)),
                _ => None,
            },
    {
        match &self.search.state {
            SearchState::Found(dir) => Some(dir.join(self.search.file_name.as_str())),
            _ => None,
        }
    }

    /// The directory that the search has ended at and the record of its
    /// file, where it has ended at one.
    pub fn loaded(self) -> (found: Option<(FsPath, TomlConfigLatest)>)
        ensures
            match (self.search.state, self.record) {
                (SearchState::Found(dir), Some(record)) => found == Some((dir, record)),
                _ => found is None,
            },
    {
        match (self.search.state, self.record) {
            (SearchState::Found(dir), Some(record)) => Some((dir, record)),
            _ => None,
        }
    }
}

/// A record that is read from a document without a key twice has no key
/// twice in any of its maps, under whichever schema it is read and after
/// it is brought up to the latest.
pub proof fn lemma_read_is_well_keyed(doc: NodeModel)
    requires
        unique_tables(doc),
        resolved(doc) is Some,
    ensures
        well_keyed(resolved(doc).unwrap().1),
        well_keyed(upgraded(resolved(doc).unwrap().1)),
{
    let entries = doc->Table_0;
    if shape_0_2_2(doc) is Some {
        lemma_lookup_unique(entries, "links"@);
        lemma_links_well_keyed(doc.field("links"@));
        lemma_lookup_unique(entries, "scripts"@);
        lemma_scripts_well_keyed(doc.field("scripts"@));
        lemma_lookup_unique(entries, "dependencies"@);
        lemma_dependencies_well_keyed(doc.field("dependencies"@));
    } else {
        lemma_lookup_unique(entries, "workspace"@);
        lemma_links_well_keyed(doc.field("workspace"@));
        lemma_lookup_unique(entries, "scripts"@);
        lemma_scripts_well_keyed(doc.field("scripts"@));
        lemma_lookup_unique(entries, "dependencies"@);
        lemma_dependencies_well_keyed(doc.field("dependencies"@));
    }
}

/// Bringing a record of the latest schema up to date changes nothing.
pub proof fn lemma_upgrade_of_latest(config: TomlConfig0_2_2)
    ensures
        AnyTomlConfig::V0_2_2(config).spec_upgrade() == config,
{
}

/// An upgrade keeps every link, script and dependency, with its key and
/// its value, in its place; and the name and the version.
pub proof fn lemma_upgrade_keeps(config: AnyTomlConfig)
    ensures
        config.spec_upgrade().deep_view().links == config.deep_view().links,
        config.spec_upgrade().deep_view().scripts == config.deep_view().scripts,
        config.spec_upgrade().deep_view().dependencies == config.deep_view().dependencies,
        config.spec_upgrade().deep_view().section.name == config.deep_view().section.name,
        config.spec_upgrade().deep_view().section.version == config.deep_view().section.version,
{
}

/// A document that fits a schema is never read under an older one.
pub proof fn lemma_newest_first(doc: NodeModel)
    ensures
        shape_0_2_2(doc) is Some ==> resolved(doc) == Some(
            (Schema::V0_2_2, shape_0_2_2(doc).unwrap()),
        ),
        shape_before(doc, literal_0_2_1()) is Some ==> resolved(doc) is Some && resolved(
            doc,
        ).unwrap().0 != Schema::V0_2_0,
        resolved(doc) is None <==> shape_0_2_2(doc) is None && shape_before(
            doc,
            literal_0_2_1(),
        ) is None && shape_before(doc, literal_0_2_0()) is None,
{
}

/// What stands under each key of the document that a record is written
/// as. A map that the record does not have has no key: nothing is found
/// under it.
pub proof fn lemma_document_fields(config: ConfigModel, version: Seq<char>) -> (doc: NodeModel)
    ensures
        doc == document_of(config, version),
        doc.field("environment"@) == Some(environment_node(literal_0_2_2())),
        doc.field("workspace"@) == Some(section_node(config.section, version)),
        doc.field("links"@) == optional_links_node(config.links),
        doc.field("scripts"@) == optional_scripts_node(config.scripts),
        doc.field("dependencies"@) == optional_dependencies_node(config.dependencies),
{
    lemma_keys();
    let environment = ("environment"@, environment_node(literal_0_2_2()));
    let section = ("workspace"@, section_node(config.section, version));
    let base = seq![environment, section];
    let with_links = with_entry(base, "links"@, optional_links_node(config.links));
    let with_scripts = with_entry(with_links, "scripts"@, optional_scripts_node(config.scripts));
    let with_dependencies = with_entry(with_scripts, "dependencies"@, optional_dependencies_node(config.dependencies));
    lemma_lookup_pair(environment, section, "environment"@);
    lemma_lookup_pair(environment, section, "workspace"@);
    lemma_lookup_pair(environment, section, "links"@);
    lemma_lookup_pair(environment, section, "scripts"@);
    lemma_lookup_pair(environment, section, "dependencies"@);
    lemma_lookup_with_entry(base, "links"@, optional_links_node(config.links), "environment"@);
    lemma_lookup_with_entry(base, "links"@, optional_links_node(config.links), "workspace"@);
    lemma_lookup_with_entry(base, "links"@, optional_links_node(config.links), "links"@);
    lemma_lookup_with_entry(base, "links"@, optional_links_node(config.links), "scripts"@);
    lemma_lookup_with_entry(base, "links"@, optional_links_node(config.links), "dependencies"@);
    lemma_lookup_with_entry(with_links, "scripts"@, optional_scripts_node(config.scripts), "environment"@);
    lemma_lookup_with_entry(with_links, "scripts"@, optional_scripts_node(config.scripts), "workspace"@);
    lemma_lookup_with_entry(with_links, "scripts"@, optional_scripts_node(config.scripts), "links"@);
    lemma_lookup_with_entry(with_links, "scripts"@, optional_scripts_node(config.scripts), "scripts"@);
    lemma_lookup_with_entry(with_links, "scripts"@, optional_scripts_node(config.scripts), "dependencies"@);
    lemma_lookup_with_entry(with_scripts, "dependencies"@, optional_dependencies_node(config.dependencies), "environment"@);
    lemma_lookup_with_entry(with_scripts, "dependencies"@, optional_dependencies_node(config.dependencies), "workspace"@);
    lemma_lookup_with_entry(with_scripts, "dependencies"@, optional_dependencies_node(config.dependencies), "links"@);
    lemma_lookup_with_entry(with_scripts, "dependencies"@, optional_dependencies_node(config.dependencies), "scripts"@);
    lemma_lookup_with_entry(with_scripts, "dependencies"@, optional_dependencies_node(config.dependencies), "dependencies"@);
    document_of(config, version)
}

/// A map that a record does not have is not written, and a map that is
/// not written is one that the record read from the document does not
/// have: it is read as empty.
pub proof fn lemma_omitted_when_empty(config: ConfigModel, version: Seq<char>, doc: NodeModel)
    ensures
        entries_or_none(config.dependencies).len() == 0 <==> document_of(
            config,
            version,
        ).field("dependencies"@) is None,
        entries_or_none(config.scripts).len() == 0 <==> document_of(config, version).field(
            "scripts"@,
        ) is None,
        doc.field("dependencies"@) is None && shape_0_2_2(doc) is Some ==> shape_0_2_2(
            doc,
        ).unwrap().dependencies is None && entries_or_none(
            shape_0_2_2(doc).unwrap().dependencies,
        ).len() == 0,
        doc.field("scripts"@) is None && shape_0_2_2(doc) is Some ==> shape_0_2_2(
            doc,
        ).unwrap().scripts is None,
{
    lemma_document_fields(config, version);
}

/// A record is read back from the document that it is written as, and
/// under the latest schema: where its names are plain, its version is
/// read back from the text that it is written as, and it is a record of
/// the latest schema and of this kind.
pub proof fn lemma_read_back(config: ConfigModel, version: Seq<char>)
    requires
        plain_name(config.section.name),
        semver_parsed(version) == Some(config.section.version),
        config.section.build is None,
        config.section.git is None,
        config.restrict is None,
        plain_links(config.links),
        plain_dependencies(config.dependencies),
        written_form(config.links),
        written_form(config.scripts),
        written_form(config.dependencies),
    ensures
        shape_0_2_2(document_of(config, version)) == Some(config),
        resolved(document_of(config, version)) == Some((Schema::V0_2_2, config)),
{
    lemma_document_fields(config, version);
    lemma_environment_read_back(literal_0_2_2());
    lemma_section_read_back(config.section, version, false, false);
    lemma_links_read_back(config.links);
    lemma_scripts_read_back(config.scripts);
    lemma_dependencies_read_back(config.dependencies);
}

} // verus!
