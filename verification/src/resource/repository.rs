//! Repositories: their configuration under each schema, and their scripts.

use vstd::prelude::*;
use crate::document::{
    distinct_keys, entries_model, lemma_lookup_unique, Node, NodeModel, parse_document,
    ParseError, push_entry, render_document, rendered, table_node, toml_document, unique_tables,
};
use crate::error::{CreateResourceError, GeneralResourceError, IoError, ReadConfigError};
use crate::keyed::{index_of_text, lemma_position, position, text_keys};
use crate::locate::{Answer, Request, Search, SearchModel, SearchState, step_model};
use crate::path::FsPath;
use crate::resource::{decode_path, Name, Resource};
use crate::resource::decode::{
    decode_optional_dependencies, decode_optional_restrict, decode_optional_scripts, has_marker,
    marker_of, optional_dependencies, optional_restrict, optional_scripts, section_of,
};
use crate::resource::encode::{
    encode_environment, encode_optional_dependencies, encode_optional_restrict,
    encode_optional_scripts, environment_node, optional_dependencies_node, optional_restrict_node,
    optional_scripts_node, push_optional, section_node, with_entry,
};
use crate::resource::read_back::{
    lemma_dependencies_read_back, lemma_dependencies_well_keyed, lemma_environment_read_back,
    lemma_keys, lemma_lookup_pair, lemma_lookup_with_entry, lemma_restrict_read_back,
    lemma_restrict_well_keyed, lemma_scripts_read_back, lemma_scripts_well_keyed,
    lemma_section_read_back, plain_dependencies, plain_name, plain_restrict, written_form,
    written_restrict,
};
use crate::resource::restrict::{
    Condition, Requirement, Settings, settings_read, settings_record, SettingsView,
};
use crate::resource::tomlconfig::{
    clone_dependencies, clone_scripts, ConfigModel, Dependencies0_2_0, Dependencies0_2_1,
    Dependencies0_2_2, entries_or_none, Environment0_2_0, Environment0_2_1, Environment0_2_2,
    GitModel, hashmap_to_option_hashmap, kept, Repository0_2_0, Repository0_2_1, Repository0_2_2,
    RepositoryGit0_2_0, RepositoryGit0_2_2, Restrict0_2_2, Restrictor0_2_2,
    RestrictorSettings0_2_2, RestrictRequirement0_2_2, Schema, Scripts0_2_0, Scripts0_2_1,
    Scripts0_2_2, SectionModel, SettingsModel, well_keyed,
};
use crate::version::{
    literal_0_2_0, literal_0_2_1, literal_0_2_2, plain_version, SemVer, semver_parsed,
    semver_text, Version0_2_0, Version0_2_1, Version0_2_2,
};

verus! {

pub type TomlConfigLatest = TomlConfig0_2_2;

/// A repository's `batl.toml` under schema 0.2.2.
#[derive(Debug, Clone, PartialEq, Eq)]
pub struct TomlConfig0_2_2 {
    pub environment: Environment0_2_2,
    pub repository: Repository0_2_2,
    pub scripts: Option<Scripts0_2_2>,
    pub dependencies: Option<Dependencies0_2_2>,
    pub restrict: Option<Restrict0_2_2>,
}

/// A repository's `batl.toml` under schema 0.2.1: there is a build
/// command, and there are no restrictions.
#[derive(Debug, Clone, PartialEq, Eq)]
pub struct TomlConfig0_2_1 {
    pub environment: Environment0_2_1,
    pub repository: Repository0_2_1,
    pub scripts: Option<Scripts0_2_1>,
    pub dependencies: Option<Dependencies0_2_1>,
}

/// A repository's `batl.toml` under schema 0.2.0, laid out as under 0.2.1.
#[derive(Debug, Clone, PartialEq, Eq)]
pub struct TomlConfig0_2_0 {
    pub environment: Environment0_2_0,
    pub repository: Repository0_2_0,
    pub scripts: Option<Scripts0_2_0>,
    pub dependencies: Option<Dependencies0_2_0>,
}

/// A repository's `batl.toml` under whichever schema it was written.
#[derive(Debug)]
pub enum AnyTomlConfig {
    V0_2_2(TomlConfig0_2_2),
    V0_2_1(TomlConfig0_2_1),
    V0_2_0(TomlConfig0_2_0),
}

impl DeepView for TomlConfig0_2_2 {
    type V = ConfigModel;

    open spec fn deep_view(&self) -> ConfigModel {
        ConfigModel {
            section: self.repository.deep_view(),
            links: None,
            scripts: self.scripts.deep_view(),
            dependencies: self.dependencies.deep_view(),
            restrict: self.restrict.deep_view(),
        }
    }
}

impl DeepView for TomlConfig0_2_1 {
    type V = ConfigModel;

    open spec fn deep_view(&self) -> ConfigModel {
        ConfigModel {
            section: self.repository.deep_view(),
            links: None,
            scripts: self.scripts.deep_view(),
            dependencies: self.dependencies.deep_view(),
            restrict: None,
        }
    }
}

impl DeepView for TomlConfig0_2_0 {
    type V = ConfigModel;

    open spec fn deep_view(&self) -> ConfigModel {
        ConfigModel {
            section: self.repository.deep_view(),
            links: None,
            scripts: self.scripts.deep_view(),
            dependencies: self.dependencies.deep_view(),
            restrict: None,
        }
    }
}

impl DeepView for AnyTomlConfig {
    type V = ConfigModel;

    open spec fn deep_view(&self) -> ConfigModel {
        match self {
            AnyTomlConfig::V0_2_2(config) => config.deep_view(),
            AnyTomlConfig::V0_2_1(config) => config.deep_view(),
            AnyTomlConfig::V0_2_0(config) => config.deep_view(),
        }
    }
}

/// What a document says under schema 0.2.2, if it fits the schema: it
/// carries the marker, describes the repository under `repository`, and
/// such maps as it has are well made.
pub open spec fn shape_0_2_2(doc: NodeModel) -> Option<ConfigModel> {
    if marker_of(doc) == Some(literal_0_2_2()) {
        match doc.field("repository"@) {
            Some(section) => match (
                section_of(section, false, true),
                optional_scripts(doc.field("scripts"@)),
                optional_dependencies(doc.field("dependencies"@)),
                optional_restrict(doc.field("restrict"@)),
            ) {
                (Some(section), Some(scripts), Some(dependencies), Some(restrict)) => Some(
                    ConfigModel { section, links: None, scripts, dependencies, restrict },
                ),
                _ => None,
            },
            None => None,
        }
    } else {
        None
    }
}

/// What a document says under an earlier schema, if it fits: it carries
/// that schema's marker and describes the repository, with or without a
/// build command, under `repository`.
pub open spec fn shape_before(doc: NodeModel, literal: Seq<char>) -> Option<ConfigModel> {
    if marker_of(doc) == Some(literal) {
        match doc.field("repository"@) {
            Some(section) => match (
                section_of(section, true, true),
                optional_scripts(doc.field("scripts"@)),
                optional_dependencies(doc.field("dependencies"@)),
            ) {
                (Some(section), Some(scripts), Some(dependencies)) => Some(
                    ConfigModel { section, links: None, scripts, dependencies, restrict: None },
                ),
                _ => None,
            },
            None => None,
        }
    } else {
        None
    }
}

/// The schema that a document is read under, and what it says there: the
/// newest schema that the document fits.
pub open spec fn resolved(doc: NodeModel) -> Option<(Schema, ConfigModel)> {
    match shape_0_2_2(doc) {
        Some(config) => Some((Schema::V0_2_2, config)),
        None => match shape_before(doc, literal_0_2_1()) {
            Some(config) => Some((Schema::V0_2_1, config)),
            None => match shape_before(doc, literal_0_2_0()) {
                Some(config) => Some((Schema::V0_2_0, config)),
                None => None,
            },
        },
    }
}

/// What a record of an earlier schema says once it is brought up to the
/// latest: the same, but for the build command, which is no more.
pub open spec fn upgraded(config: ConfigModel) -> ConfigModel {
    ConfigModel {
        section: SectionModel {
            name: config.section.name,
            version: config.section.version,
            build: None,
            git: config.section.git,
        },
        links: config.links,
        scripts: config.scripts,
        dependencies: config.dependencies,
        restrict: config.restrict,
    }
}

/// The document that a record of the latest schema is written as, given
/// the text of its version.
pub open spec fn document_of(config: ConfigModel, version: Seq<char>) -> NodeModel {
    NodeModel::Table(
        with_entry(
            with_entry(
                with_entry(
                    seq![
                        ("environment"@, environment_node(literal_0_2_2())),
                        ("repository"@, section_node(config.section, version)),
                    ],
                    "scripts"@,
                    optional_scripts_node(config.scripts),
                ),
                "dependencies"@,
                optional_dependencies_node(config.dependencies),
            ),
            "restrict"@,
            optional_restrict_node(config.restrict),
        ),
    )
}

/// The document that a record of the latest schema is written as. There
/// is none where the version has no text.
pub open spec fn written(config: ConfigModel) -> Option<NodeModel> {
    match semver_text(config.section.version) {
        Some(version) => Some(document_of(config, version)),
        None => None,
    }
}

/// The text of the file that a record is saved as. Where the record
/// cannot be written, the file is left empty.
pub open spec fn file_text(config: ConfigModel) -> Seq<char> {
    match written(config) {
        Some(doc) => match rendered(doc) {
            Some(text) => text,
            None => Seq::empty(),
        },
        None => Seq::empty(),
    }
}

impl TomlConfig0_2_2 {
    /// Reads the record from a document, if the document fits the schema.
    pub fn decode(doc: &Node) -> (config: Option<TomlConfig0_2_2>)
        ensures
            config.deep_view() == shape_0_2_2(doc.deep_view()),
    {
        if !has_marker(doc, Version0_2_2.as_str()) {
            return None;
        }
        let repository = match doc.get("repository") {
            Some(section) => Repository0_2_2::decode(section),
            None => {
                return None;
            },
        };
        let scripts = decode_optional_scripts(doc.get("scripts"));
        let dependencies = decode_optional_dependencies(doc.get("dependencies"));
        let restrict = decode_optional_restrict(doc.get("restrict"));
        match (repository, scripts, dependencies, restrict) {
            (Some(repository), Some(scripts), Some(dependencies), Some(restrict)) => Some(
                TomlConfig0_2_2 {
                    environment: Environment0_2_2 { version: Version0_2_2 },
                    repository,
                    scripts,
                    dependencies,
                    restrict,
                },
            ),
            _ => None,
        }
    }

    /// The record as a document. There is none where the version has no
    /// text. A map that the record does not have is not written.
    pub fn encode(&self) -> (doc: Option<Node>)
        ensures
            doc.deep_view() == written(self.deep_view()),
    {
        let section = match self.repository.encode() {
            Some(section) => section,
            None => {
                return None;
            },
        };
        let mut entries: Vec<(String, Node)> = Vec::new();
        assert(entries_model(entries@) =~= Seq::empty());
        push_entry(&mut entries, "environment", encode_environment(Version0_2_2.as_str()));
        push_entry(&mut entries, "repository", section);
        assert(entries_model(entries@) =~= seq![
            ("environment"@, environment_node(literal_0_2_2())),
            (
                "repository"@,
                section_node(
                    self.repository.deep_view(),
                    semver_text(self.repository.version.deep_view()).unwrap(),
                ),
            ),
        ]);
        let scripts = encode_optional_scripts(&self.scripts);
        push_optional(&mut entries, "scripts", scripts);
        let dependencies = encode_optional_dependencies(&self.dependencies);
        push_optional(&mut entries, "dependencies", dependencies);
        let restrict = encode_optional_restrict(&self.restrict);
        push_optional(&mut entries, "restrict", restrict);
        Some(table_node(entries))
    }

    /// The text of the file that the record is saved as.
    pub fn to_toml(&self) -> (text: String)
        ensures
            text@ == file_text(self.deep_view()),
    {
        match self.encode() {
            Some(doc) => match render_document(&doc) {
                Some(text) => text,
                None => String::new(),
            },
            None => String::new(),
        }
    }
}

impl TomlConfig0_2_1 {
    /// Reads the record from a document, if the document fits the schema.
    pub fn decode(doc: &Node) -> (config: Option<TomlConfig0_2_1>)
        ensures
            config.deep_view() == shape_before(doc.deep_view(), literal_0_2_1()),
    {
        if !has_marker(doc, Version0_2_1.as_str()) {
            return None;
        }
        let repository = match doc.get("repository") {
            Some(section) => Repository0_2_1::decode(section),
            None => {
                return None;
            },
        };
        let scripts = decode_optional_scripts(doc.get("scripts"));
        let dependencies = decode_optional_dependencies(doc.get("dependencies"));
        match (repository, scripts, dependencies) {
            (Some(repository), Some(scripts), Some(dependencies)) => Some(
                TomlConfig0_2_1 {
                    environment: Environment0_2_1 { version: Version0_2_1 },
                    repository,
                    scripts,
                    dependencies,
                },
            ),
            _ => None,
        }
    }

    /// The record under the latest schema: the build command goes, there
    /// are no restrictions, and all else is kept as it is.
    pub fn upgrade(self) -> (latest: TomlConfigLatest)
        ensures
            latest == (TomlConfig0_2_2 {
                environment: Environment0_2_2 { version: Version0_2_2 },
                repository: Repository0_2_2 {
                    name: self.repository.name,
                    version: self.repository.version,
                    git: self.repository.git,
                },
                scripts: self.scripts,
                dependencies: self.dependencies,
                restrict: None,
            }),
            latest.deep_view() == upgraded(self.deep_view()),
    {
        TomlConfig0_2_2 {
            environment: Environment0_2_2 { version: Version0_2_2 },
            repository: Repository0_2_2 {
                name: self.repository.name,
                version: self.repository.version,
                git: self.repository.git,
            },
            scripts: self.scripts,
            dependencies: self.dependencies,
            restrict: None,
        }
    }
}

impl TomlConfig0_2_0 {
    /// Reads the record from a document, if the document fits the schema.
    pub fn decode(doc: &Node) -> (config: Option<TomlConfig0_2_0>)
        ensures
            config.deep_view() == shape_before(doc.deep_view(), literal_0_2_0()),
    {
        if !has_marker(doc, Version0_2_0.as_str()) {
            return None;
        }
        let repository = match doc.get("repository") {
            Some(section) => Repository0_2_0::decode(section),
            None => {
                return None;
            },
        };
        let scripts = decode_optional_scripts(doc.get("scripts"));
        let dependencies = decode_optional_dependencies(doc.get("dependencies"));
        match (repository, scripts, dependencies) {
            (Some(repository), Some(scripts), Some(dependencies)) => Some(
                TomlConfig0_2_0 {
                    environment: Environment0_2_0 { version: Version0_2_0 },
                    repository,
                    scripts,
                    dependencies,
                },
            ),
            _ => None,
        }
    }

    /// The record under the latest schema: the build command goes, there
    /// are no restrictions, and all else is kept as it is.
    pub fn upgrade(self) -> (latest: TomlConfigLatest)
        ensures
            latest == (TomlConfig0_2_2 {
                environment: Environment0_2_2 { version: Version0_2_2 },
                repository: Repository0_2_2 {
                    name: self.repository.name,
                    version: self.repository.version,
                    git: self.repository.git,
                },
                scripts: self.scripts,
                dependencies: self.dependencies,
                restrict: None,
            }),
            latest.deep_view() == upgraded(self.deep_view()),
    {
        TomlConfig0_2_2 {
            environment: Environment0_2_2 { version: Version0_2_2 },
            repository: Repository0_2_2 {
                name: self.repository.name,
                version: self.repository.version,
                git: self.repository.git,
            },
            scripts: self.scripts,
            dependencies: self.dependencies,
            restrict: None,
        }
    }
}

impl AnyTomlConfig {
    /// The schema that the record was written under.
    pub open spec fn spec_schema(&self) -> Schema {
        match self {
            AnyTomlConfig::V0_2_2(_) => Schema::V0_2_2,
            AnyTomlConfig::V0_2_1(_) => Schema::V0_2_1,
            AnyTomlConfig::V0_2_0(_) => Schema::V0_2_0,
        }
    }

    /// The schema that the record was written under.
    pub fn schema(&self) -> (schema: Schema)
        ensures
            schema == self.spec_schema(),
    {
        match self {
            AnyTomlConfig::V0_2_2(_) => Schema::V0_2_2,
            AnyTomlConfig::V0_2_1(_) => Schema::V0_2_1,
            AnyTomlConfig::V0_2_0(_) => Schema::V0_2_0,
        }
    }

    /// The record under the latest schema.
    pub open spec fn spec_upgrade(self) -> TomlConfigLatest {
        match self {
            AnyTomlConfig::V0_2_2(config) => config,
            AnyTomlConfig::V0_2_1(config) => TomlConfig0_2_2 {
                environment: Environment0_2_2 { version: Version0_2_2 },
                repository: Repository0_2_2 {
                    name: config.repository.name,
                    version: config.repository.version,
                    git: config.repository.git,
                },
                scripts: config.scripts,
                dependencies: config.dependencies,
                restrict: None,
            },
            AnyTomlConfig::V0_2_0(config) => TomlConfig0_2_2 {
                environment: Environment0_2_2 { version: Version0_2_2 },
                repository: Repository0_2_2 {
                    name: config.repository.name,
                    version: config.repository.version,
                    git: config.repository.git,
                },
                scripts: config.scripts,
                dependencies: config.dependencies,
                restrict: None,
            },
        }
    }

    /// Reads a record from a document under the newest schema that the
    /// document fits. A document that fits none is invalid.
    pub fn from_document(doc: &Node) -> (read: Result<AnyTomlConfig, ReadConfigError>)
        ensures
            match read {
                Ok(config) => resolved(doc.deep_view()) == Some(
                    (config.spec_schema(), config.deep_view()),
                ),
                Err(error) => resolved(doc.deep_view()) is None && error is TomlError,
            },
    {
        if let Some(config) = TomlConfig0_2_2::decode(doc) {
            return Ok(AnyTomlConfig::V0_2_2(config));
        }
        if let Some(config) = TomlConfig0_2_1::decode(doc) {
            return Ok(AnyTomlConfig::V0_2_1(config));
        }
        if let Some(config) = TomlConfig0_2_0::decode(doc) {
            return Ok(AnyTomlConfig::V0_2_0(config));
        }
        Err(
            ReadConfigError::TomlError(
                ParseError { message: "no known schema fits the document".to_owned() },
            ),
        )
    }

    /// Reads a record from the text of a `batl.toml`.
    pub fn read_toml(text: &str) -> (read: Result<AnyTomlConfig, ReadConfigError>)
        ensures
            match read {
                Ok(config) => well_keyed(config.deep_view()) && match toml_document(text@) {
                    Some(doc) => resolved(doc) == Some((config.spec_schema(), config.deep_view())),
                    None => false,
                },
                Err(error) => error is TomlError && match toml_document(text@) {
                    Some(doc) => resolved(doc) is None,
                    None => true,
                },
            },
    {
        match parse_document(text) {
            Ok(doc) => {
                let read = AnyTomlConfig::from_document(&doc);
                proof {
                    if read is Ok {
                        lemma_read_is_well_keyed(doc.deep_view());
                    }
                }
                read
            },
            Err(error) => Err(ReadConfigError::TomlError(error)),
        }
    }

    /// The record under the latest schema. A record of the latest schema
    /// is returned as it is.
    pub fn upgrade(self) -> (latest: TomlConfigLatest)
        ensures
            latest == self.spec_upgrade(),
            latest.deep_view() == upgraded(self.deep_view()),
    {
        match self {
            AnyTomlConfig::V0_2_2(config) => config,
            AnyTomlConfig::V0_2_1(config) => config.upgrade(),
            AnyTomlConfig::V0_2_0(config) => config.upgrade(),
        }
    }
}

/// What a file holds as a repository's record under the latest schema. A
/// file that could not be read is an error of its own, and so is one that
/// no known schema fits.
pub fn read(file: Result<String, IoError>) -> (read: Result<TomlConfigLatest, ReadConfigError>)
    ensures
        match file {
            Ok(text) => match toml_document(text@) {
                Some(doc) => match resolved(doc) {
                    Some((_, config)) => read matches Ok(record) && record.deep_view()
                        == upgraded(config) && well_keyed(record.deep_view()),
                    None => read matches Err(ReadConfigError::TomlError(_)),
                },
                None => read matches Err(ReadConfigError::TomlError(_)),
            },
            Err(error) => read == Err::<TomlConfigLatest, ReadConfigError>(
                ReadConfigError::IoError(error),
            ),
        },
{
    match file {
        Ok(text) => match AnyTomlConfig::read_toml(text.as_str()) {
            Ok(config) => Ok(config.upgrade()),
            Err(error) => Err(error),
        },
        Err(error) => Err(ReadConfigError::IoError(error)),
    }
}

/// Where the sources of a repository come from.
#[derive(Debug, Clone, PartialEq, Eq)]
pub struct GitConfig {
    pub url: String,
    pub path: String,
}

/// What a repository is configured to be, whatever schema it was read
/// from.
#[derive(Debug, Clone, PartialEq, Eq)]
pub struct Config {
    pub name: Name,
    pub version: SemVer,
    pub git: Option<GitConfig>,
    pub scripts: Scripts0_2_2,
    pub dependencies: Dependencies0_2_2,
    pub restrict: Vec<(Condition, Settings)>,
}

impl DeepView for GitConfig {
    type V = GitModel;

    open spec fn deep_view(&self) -> GitModel {
        GitModel { url: self.url@, path: self.path@ }
    }
}

/// What the restrictions of a record say, condition by condition.
pub open spec fn restrictions_read(restrict: Seq<(Restrictor0_2_2, SettingsModel)>) -> Seq<
    (Condition, SettingsView),
> {
    Seq::new(
        restrict.len(),
        |i: int| (Condition::of_restrictor(restrict[i].0), settings_read(restrict[i].1)),
    )
}

/// What the record of restrictions says, condition by condition.
pub open spec fn restrictions_record(restrict: Seq<(Condition, SettingsView)>) -> Seq<
    (Restrictor0_2_2, SettingsModel),
> {
    Seq::new(restrict.len(), |i: int| (restrict[i].0.restrictor(), settings_record(restrict[i].1)))
}

/// Where the sources come from, read from a record.
pub open spec fn git_read(git: Option<RepositoryGit0_2_2>) -> Option<GitConfig> {
    match git {
        Some(git) => Some(GitConfig { url: git.url, path: git.path }),
        None => None,
    }
}

/// Where the sources come from, as a record says it.
pub open spec fn git_record(git: Option<GitConfig>) -> Option<RepositoryGit0_2_2> {
    match git {
        Some(git) => Some(RepositoryGit0_2_0 { url: git.url, path: git.path }),
        None => None,
    }
}

/// The restrictions of a record, each as settings under its condition.
pub fn read_restrictions(record: Restrict0_2_2) -> (restrict: Vec<(Condition, Settings)>)
    ensures
        restrict.deep_view() == restrictions_read(record.deep_view()),
{
    let ghost all = record.deep_view();
    let mut record = record;
    let mut restrict: Vec<(Condition, Settings)> = Vec::new();
    assert(restrict.deep_view() =~= restrictions_read(all.subrange(all.len() as int, all.len() as int)));
    assert(record.deep_view() =~= all.subrange(0, all.len() as int));
    while record.len() > 0
        invariant
            record.len() <= all.len(),
            record.deep_view() == all.subrange(0, record.len() as int),
            restrict.deep_view() == restrictions_read(
                all.subrange(record.len() as int, all.len() as int),
            ),
        decreases record.len(),
    {
        let ghost n = record.len() as int;
        let ghost rest = record.deep_view();
        let ghost done = restrict.deep_view();
        let (restrictor, settings) = record.pop().unwrap();
        assert(all[n - 1] == rest[n - 1]);
        assert(rest[n - 1] == (restrictor, settings.deep_view()));
        assert(record.deep_view() =~= all.subrange(0, n - 1));
        let entry = (Condition::from(restrictor), Settings::from_record(settings));
        restrict.insert(0, entry);
        assert(restrict.deep_view() =~= done.insert(0, entry.deep_view()));
        assert(restrict.deep_view() =~= restrictions_read(all.subrange(n - 1, all.len() as int)));
    }
    assert(all.subrange(0, all.len() as int) =~= all);
    restrict
}

/// Restrictions as a record states them.
pub fn record_restrictions(restrict: Vec<(Condition, Settings)>) -> (record: Restrict0_2_2)
    ensures
        record.deep_view() == restrictions_record(restrict.deep_view()),
{
    let ghost all = restrict.deep_view();
    let mut restrict = restrict;
    let mut record: Restrict0_2_2 = Vec::new();
    assert(record.deep_view() =~= restrictions_record(
        all.subrange(all.len() as int, all.len() as int),
    ));
    assert(restrict.deep_view() =~= all.subrange(0, all.len() as int));
    while restrict.len() > 0
        invariant
            restrict.len() <= all.len(),
            restrict.deep_view() == all.subrange(0, restrict.len() as int),
            record.deep_view() == restrictions_record(
                all.subrange(restrict.len() as int, all.len() as int),
            ),
        decreases restrict.len(),
    {
        let ghost n = restrict.len() as int;
        let ghost rest = restrict.deep_view();
        let ghost done = record.deep_view();
        let (condition, settings) = restrict.pop().unwrap();
        assert(all[n - 1] == rest[n - 1]);
        assert(rest[n - 1] == (condition, settings.deep_view()));
        assert(restrict.deep_view() =~= all.subrange(0, n - 1));
        let entry = (Restrictor0_2_2::from(condition), settings.into_record());
        record.insert(0, entry);
        assert(record.deep_view() =~= done.insert(0, entry.deep_view()));
        assert(record.deep_view() =~= restrictions_record(all.subrange(n - 1, all.len() as int)));
    }
    assert(all.subrange(0, all.len() as int) =~= all);
    record
}

impl Config {
    /// What a record of the latest schema configures: a map that the
    /// record does not have is empty, and a condition without a stated
    /// requirement allows.
    pub fn from_record(record: TomlConfig0_2_2) -> (config: Config)
        ensures
            config.name == record.repository.name,
            config.version == record.repository.version,
            config.git == git_read(record.repository.git),
            config.scripts.deep_view() == entries_or_none(record.scripts.deep_view()),
            config.dependencies.deep_view() == entries_or_none(record.dependencies.deep_view()),
            config.restrict.deep_view() == restrictions_read(
                entries_or_none(record.restrict.deep_view()),
            ),
            well_keyed(record.deep_view()) ==> config.wf(),
    {
        let git = match record.repository.git {
            Some(git) => Some(GitConfig { url: git.url, path: git.path }),
            None => None,
        };
        let scripts = match record.scripts {
            Some(scripts) => scripts,
            None => Vec::new(),
        };
        let dependencies = match record.dependencies {
            Some(dependencies) => dependencies,
            None => Vec::new(),
        };
        let restrict = match record.restrict {
            Some(restrict) => restrict,
            None => Vec::new(),
        };
        assert(scripts.deep_view() =~= entries_or_none(record.scripts.deep_view()));
        assert(dependencies.deep_view() =~= entries_or_none(record.dependencies.deep_view()));
        assert(restrict.deep_view() =~= entries_or_none(record.restrict.deep_view()));
        Config {
            name: record.repository.name,
            version: record.repository.version,
            git,
            scripts,
            dependencies,
            restrict: read_restrictions(restrict),
        }
    }

    /// Whether every map of the configuration is a map: no script,
    /// dependency or condition occurs twice.
    pub open spec fn wf(&self) -> bool {
        &&& distinct_keys(self.scripts.deep_view())
        &&& distinct_keys(self.dependencies.deep_view())
        &&& distinct_keys(self.restrict.deep_view())
        &&& forall|i: int|
            0 <= i < self.restrict.deep_view().len() ==> distinct_keys(
                (#[trigger] self.restrict.deep_view()[i]).1.dependencies,
            )
    }

    /// What the record of this configuration says: an empty map is left
    /// out of it.
    pub open spec fn record_model(&self) -> ConfigModel {
        ConfigModel {
            section: SectionModel {
                name: self.name@,
                version: self.version.deep_view(),
                build: None,
                git: self.git.deep_view(),
            },
            links: None,
            scripts: kept(self.scripts.deep_view()),
            dependencies: kept(self.dependencies.deep_view()),
            restrict: kept(restrictions_record(self.restrict.deep_view())),
        }
    }

    /// The record of this configuration under the latest schema. An empty
    /// map is left out of it.
    pub fn into_record(self) -> (record: TomlConfigLatest)
        ensures
            record.deep_view() == self.record_model(),
            record.repository.name == self.name,
            record.repository.version == self.version,
            record.repository.git == git_record(self.git),
            record.scripts is None <==> self.scripts@.len() == 0,
            record.dependencies is None <==> self.dependencies@.len() == 0,
            record.restrict is None <==> self.restrict@.len() == 0,
            self.wf() ==> well_keyed(record.deep_view()),
    {
        let git = match self.git {
            Some(git) => Some(RepositoryGit0_2_0 { url: git.url, path: git.path }),
            None => None,
        };
        TomlConfig0_2_2 {
            environment: Environment0_2_2 { version: Version0_2_2 },
            repository: Repository0_2_2 { name: self.name, version: self.version, git },
            scripts: hashmap_to_option_hashmap(self.scripts),
            dependencies: hashmap_to_option_hashmap(self.dependencies),
            restrict: hashmap_to_option_hashmap(record_restrictions(self.restrict)),
        }
    }

    /// The record of this configuration under the latest schema, as
    /// `into_record` gives it.
    pub fn to_record(&self) -> (record: TomlConfigLatest)
        ensures
            record.deep_view() == self.record_model(),
    {
        let git = match &self.git {
            Some(git) => Some(GitConfig { url: git.url.clone(), path: git.path.clone() }),
            None => None,
        };
        let copy = Config {
            name: self.name.clone(),
            version: self.version.clone(),
            git,
            scripts: clone_scripts(&self.scripts),
            dependencies: clone_dependencies(&self.dependencies),
            restrict: clone_restrictions(&self.restrict),
        };
        copy.into_record()
    }

    /// The text of the file that this configuration is saved as.
    pub fn to_toml(&self) -> (text: String)
        ensures
            text@ == file_text(self.record_model()),
    {
        self.to_record().to_toml()
    }
}

/// A copy of restrictions.
pub fn clone_restrictions(restrict: &Vec<(Condition, Settings)>) -> (copy: Vec<
    (Condition, Settings),
>)
    ensures
        copy.deep_view() == restrict.deep_view(),
{
    let mut copy: Vec<(Condition, Settings)> = Vec::new();
    let mut i: usize = 0;
    while i < restrict.len()
        invariant
            i <= restrict.len(),
            copy.len() == i,
            forall|j: int| 0 <= j < i ==> copy[j].deep_view() == restrict[j].deep_view(),
        decreases restrict.len() - i,
    {
        let settings = Settings {
            inclusion: restrict[i].1.inclusion,
            dependencies: clone_dependencies(&restrict[i].1.dependencies),
        };
        copy.push((restrict[i].0, settings));
        i = i + 1;
    }
    assert(copy.deep_view() =~= restrict.deep_view());
    copy
}

/// Whether `config` is what a record that says `record` configures: a
/// map that the record does not have is empty, and a condition without a
/// stated requirement allows.
pub open spec fn configures(record: ConfigModel, config: Config) -> bool {
    &&& config.name@ == record.section.name
    &&& config.version.deep_view() == record.section.version
    &&& config.git.deep_view() == record.section.git
    &&& config.scripts.deep_view() == entries_or_none(record.scripts)
    &&& config.dependencies.deep_view() == entries_or_none(record.dependencies)
    &&& config.restrict.deep_view() == restrictions_read(entries_or_none(record.restrict))
}

/// What a new repository is created with, besides its name.
#[derive(Debug, Clone, PartialEq, Eq)]
pub struct CreateRepositoryOptions {
    pub git: Option<RepositoryGit0_2_2>,
}

impl CreateRepositoryOptions {
    /// Options for a repository whose sources come from `git`.
    pub fn git(git: RepositoryGit0_2_2) -> (options: CreateRepositoryOptions)
        ensures
            options.git == Some(git),
    {
        CreateRepositoryOptions { git: Some(git) }
    }
}

impl Default for CreateRepositoryOptions {
    fn default() -> (options: CreateRepositoryOptions)
        ensures
            options.git is None,
    {
        CreateRepositoryOptions { git: None }
    }
}

/// The command of the build script that a new repository is given.
pub open spec fn initial_build_command() -> Seq<char> {
    "echo \"No build targets\" && exit 1"@
}

/// A repository: where it lies, how it is configured, what it is called.
#[derive(Debug)]
pub struct Repository {
    /// The path of the repository, absolute by standard.
    pub path: FsPath,
    /// The repository configuration.
    pub config: Config,
    /// The repository name.
    pub name: Name,
}

impl Repository {
    /// The record that a new repository of the given name is created
    /// with: version 0.1.0, a build script that fails, no dependencies,
    /// and the requirement that the host's condition holds.
    pub fn initial_record(name: Name, options: CreateRepositoryOptions, host: Condition) -> (record:
        TomlConfigLatest)
        ensures
            record.repository.name == name,
            record.repository.version.deep_view() == plain_version(0, 1, 0),
            record.repository.git == options.git,
            record.scripts.deep_view() == Some(seq![("build"@, initial_build_command())]),
            record.dependencies is None,
            record.restrict.deep_view() == Some(
                seq![
                    (
                        host.restrictor(),
                        SettingsModel {
                            inclusion: Some(RestrictRequirement0_2_2::Require),
                            dependencies: None,
                        },
                    ),
                ],
            ),
    {
        let mut scripts: Scripts0_2_2 = Vec::new();
        scripts.push(("build".to_owned(), "echo \"No build targets\" && exit 1".to_owned()));
        assert(scripts.deep_view() =~= seq![("build"@, initial_build_command())]);
        let mut restrictions: Restrict0_2_2 = Vec::new();
        let settings = RestrictorSettings0_2_2 {
            inclusion: Some(RestrictRequirement0_2_2::Require),
            dependencies: None,
        };
        restrictions.push((Restrictor0_2_2::from(host), settings));
        assert(restrictions.deep_view() =~= seq![(host.restrictor(), settings.deep_view())]);
        TomlConfig0_2_2 {
            environment: Environment0_2_2 { version: Version0_2_2 },
            repository: Repository0_2_2 { name, version: SemVer::new(0, 1, 0), git: options.git },
            scripts: Some(scripts),
            dependencies: None,
            restrict: Some(restrictions),
        }
    }

    /// The repository of the given name that lies at `path` with `record`.
    pub fn new(path: FsPath, record: TomlConfigLatest, name: Name) -> (repository: Repository)
        ensures
            repository.path == path,
            repository.name == name,
            repository.config.name == record.repository.name,
            repository.config.version == record.repository.version,
            repository.config.git == git_read(record.repository.git),
            configures(record.deep_view(), repository.config),
            well_keyed(record.deep_view()) ==> repository.config.wf(),
    {
        Repository { path, config: Config::from_record(record), name }
    }

    /// The repository that lies at `path` with `record`. It is called
    /// what the path says.
    pub fn from_path(path: FsPath, record: TomlConfigLatest) -> (repository: Repository)
        ensures
            repository.path == path,
            repository.name@ == decode_path(path@.components),
            repository.config.name == record.repository.name,
            repository.config.version == record.repository.version,
            repository.config.git == git_read(record.repository.git),
            configures(record.deep_view(), repository.config),
            well_keyed(record.deep_view()) ==> repository.config.wf(),
    {
        let name = Name::from_path(&path);
        Repository { path, config: Config::from_record(record), name }
    }

    /// The path of the repository in the filesystem.
    pub fn path(&self) -> (path: &FsPath)
        ensures
            *path == self.path,
    {
        &self.path
    }

    /// The name of the repository.
    pub fn name(&self) -> (name: &Name)
        ensures
            *name == self.name,
    {
        &self.name
    }

    /// The configuration of the repository.
    pub fn config(&self) -> (config: &Config)
        ensures
            *config == self.config,
    {
        &self.config
    }

    /// The scripts of the repository.
    pub fn scripts(&self) -> (scripts: &Scripts0_2_2)
        ensures
            *scripts == self.config.scripts,
    {
        &self.config.scripts
    }

    /// The command of the script called `name`, if there is such a script.
    pub fn script(&self, name: &str) -> (command: Option<String>)
        ensures
            match position(text_keys(self.config.scripts@), name@) {
                Some(i) => command == Some(self.config.scripts@[i].1),
                None => command is None,
            },
    {
        match index_of_text(&self.config.scripts, name) {
            Some(i) => {
                proof {
                    lemma_position(text_keys(self.config.scripts@), name@);
                }
                Some(self.config.scripts[i].1.clone())
            },
            None => None,
        }
    }

    /// The repository called `name` that lies at `path`, given what was
    /// read of its `batl.toml`. A file that is not there means that the
    /// repository does not exist; one that no schema fits, that it is
    /// invalid.
    pub fn load(path: FsPath, file: Result<String, IoError>, name: Name) -> (loaded: Result<
        Repository,
        GeneralResourceError,
    >)
        ensures
            match loaded {
                Ok(repository) => {
                    &&& repository.path == path
                    &&& repository.name == name
                    &&& file matches Ok(text) && toml_document(text@) matches Some(doc)
                        && resolved(doc) matches Some((_, record)) && configures(
                        upgraded(record),
                        repository.config,
                    )
                    &&& repository.config.wf()
                },
                Err(error) => match file {
                    Ok(text) => error == GeneralResourceError::Invalid && (toml_document(text@)
                        matches Some(doc) ==> resolved(doc) is None),
                    Err(io) => error == ReadConfigError::IoError(io).general(),
                },
            },
    {
        match read(file) {
            Ok(record) => Ok(Repository::new(path, record, name)),
            Err(error) => Err(GeneralResourceError::from(error)),
        }
    }

    /// The repository that is created under the name `name`, where `root`
    /// is the root of repositories and `occupied` says whether its place
    /// is taken. Without a root, Battalion is not set up; a place that is
    /// taken is left alone.
    pub fn create(
        root: Option<&FsPath>,
        name: Name,
        options: CreateRepositoryOptions,
        host: Condition,
        occupied: bool,
    ) -> (created: Result<Repository, CreateResourceError>)
        ensures
            match root {
                Some(root) => if occupied {
                    created == Err::<Repository, CreateResourceError>(
                        CreateResourceError::AlreadyExists,
                    )
                } else {
                    created matches Ok(repository) && repository.name == name
                        && repository.path@ == root@.join_path(
                        crate::path::PathModel {
                            anchor: Seq::empty(),
                            components: crate::resource::encode_path(name@),
                        },
                    ) && repository.config.name@ == name@
                        && repository.config.version.deep_view() == plain_version(0, 1, 0)
                        && repository.config.git == git_read(options.git)
                        && repository.config.scripts.deep_view() == seq![
                        ("build"@, initial_build_command()),
                    ] && repository.config.dependencies.deep_view().len() == 0
                        && repository.config.restrict.deep_view() == seq![
                        (
                            host,
                            SettingsView {
                                inclusion: Requirement::Require,
                                dependencies: Seq::empty(),
                            },
                        ),
                    ] && repository.config.wf()
                },
                None => created == Err::<Repository, CreateResourceError>(
                    CreateResourceError::NotSetup,
                ),
            },
    {
        match root {
            Some(root) => {
                if occupied {
                    return Err(CreateResourceError::AlreadyExists);
                }
                let path = root.join_path(&name.to_path());
                let record = Repository::initial_record(name.clone(), options, host);
                let repository = Repository::new(path, record, name);
                assert(repository.config.restrict.deep_view() =~= seq![
                    (
                        host,
                        SettingsView {
                            inclusion: Requirement::Require,
                            dependencies: Seq::empty(),
                        },
                    ),
                ]);
                Ok(repository)
            },
            None => Err(CreateResourceError::NotSetup),
        }
    }

    /// The text of the `batl.toml` that the repository is saved as.
    pub fn to_toml(&self) -> (text: String)
        ensures
            text@ == file_text(self.config.record_model()),
    {
        self.config.to_toml()
    }
}

impl Resource for Repository {
    type Config = Config;

    open spec fn spec_path(&self) -> FsPath {
        self.path
    }

    open spec fn spec_name(&self) -> Name {
        self.name
    }

    open spec fn spec_config(&self) -> Config {
        self.config
    }

    fn path(&self) -> (path: &FsPath) {
        &self.path
    }

    fn name(&self) -> (name: &Name) {
        &self.name
    }

    fn config(&self) -> (config: &Config) {
        &self.config
    }
}

/// Whether what was read of a file is a repository's record under a known
/// schema.
pub open spec fn readable(file: Result<String, IoError>) -> bool {
    file matches Ok(text) && toml_document(text@) matches Some(doc) && resolved(doc) is Some
}

/// What a readable file says, brought up to the latest schema.
pub open spec fn record_read(file: Result<String, IoError>) -> ConfigModel
    recommends
        readable(file),
{
    upgraded(resolved(toml_document(file->Ok_0@).unwrap()).unwrap().1)
}

/// The search for the nearest `batl.toml`, from a directory upward, that
/// is a repository's: the search asks, the caller looks at the disk, and
/// what is read is judged here.
#[derive(Debug)]
pub struct Loading {
    /// Where the search stands.
    pub search: Search,
    /// The record of the file that ended the search.
    pub record: Option<TomlConfigLatest>,
}

impl Loading {
    /// The name of the file that configures a resource.
    pub fn file_name() -> (name: &'static str)
        ensures
            name@ == "batl.toml"@,
    {
        "batl.toml"
    }

    /// A search that starts at `start`.
    pub fn start(start: &FsPath) -> (loading: Loading)
        ensures
            loading.search.file_name@ == "batl.toml"@,
            loading.search.parsing,
            loading.search.state.deep_view() == SearchModel::Probing(start@),
            loading.record is None,
    {
        Loading { search: Search::locate(start, Loading::file_name()), record: None }
    }

    /// What the search asks next.
    pub fn request(&self) -> (request: Request)
        ensures
            match self.search.state.deep_view() {
                SearchModel::Probing(dir) => request matches Request::Exists(file) && file@
                    == dir.join(self.search.file_name@),
                SearchModel::Reading(dir) => request matches Request::Read(file) && file@
                    == dir.join(self.search.file_name@),
                SearchModel::Found(dir) => request matches Request::Done(Some(found)) && found@
                    == dir,
                SearchModel::Exhausted => request matches Request::Done(None),
            },
    {
        self.search.request()
    }

    /// The search after the caller has said whether the file exists.
    pub fn probed(self, exists: bool) -> (next: Loading)
        ensures
            next.search.file_name == self.search.file_name,
            next.search.parsing == self.search.parsing,
            next.search.state.deep_view() == step_model(
                self.search.state.deep_view(),
                self.search.parsing,
                Answer::Exists(exists),
            ),
            next.record == self.record,
    {
        Loading { search: self.search.step(Answer::Exists(exists)), record: self.record }
    }

    /// The search after the caller has read the file, or failed to. A
    /// file that is a record under a known schema ends the search, and
    /// its record is kept; any other sends the search upward.
    pub fn contents(self, file: Result<String, IoError>) -> (next: Loading)
        ensures
            next.search.file_name == self.search.file_name,
            next.search.parsing == self.search.parsing,
            next.search.state.deep_view() == step_model(
                self.search.state.deep_view(),
                self.search.parsing,
                Answer::Parsed(readable(file)),
            ),
            if self.search.state is Reading && readable(file) {
                next.record matches Some(record) && record.deep_view() == record_read(file)
            } else {
                next.record == self.record
            },
    {
        let asked = match &self.search.state {
            SearchState::Reading(_) => true,
            _ => false,
        };
        match read(file) {
            Ok(record) => Loading {
                search: self.search.step(Answer::Parsed(true)),
                record: if asked {
                    Some(record)
                } else {
                    self.record
                },
            },
            Err(_) => Loading {
                search: self.search.step(Answer::Parsed(false)),
                record: self.record,
            },
        }
    }

    /// The file that the search has found, with its directory first.
    pub fn located(&self) -> (file: Option<FsPath>)
        ensures
            file.deep_view() == match self.search.state.deep_view() {
                SearchModel::Found(dir) => Some(dir.join(self.search.file_name@)),
                _ => None,
            },
    {
        match &self.search.state {
            SearchState::Found(dir) => Some(dir.join(self.search.file_name.as_str())),
            _ => None,
        }
    }

    /// The directory that the search has ended at and the record of its
    /// file, where it has ended at one.
    pub fn loaded(self) -> (found: Option<(FsPath, TomlConfigLatest)>)
        ensures
            match (self.search.state, self.record) {
                (SearchState::Found(dir), Some(record)) => found == Some((dir, record)),
                _ => found is None,
            },
    {
        match (self.search.state, self.record) {
            (SearchState::Found(dir), Some(record)) => Some((dir, record)),
            _ => None,
        }
    }
}

/// A record that is read from a document without a key twice has no key
/// twice in any of its maps, under whichever schema it is read and after
/// it is brought up to the latest.
pub proof fn lemma_read_is_well_keyed(doc: NodeModel)
    requires
        unique_tables(doc),
        resolved(doc) is Some,
    ensures
        well_keyed(resolved(doc).unwrap().1),
        well_keyed(upgraded(resolved(doc).unwrap().1)),
{
    let entries = doc->Table_0;
    if shape_0_2_2(doc) is Some {
        lemma_lookup_unique(entries, "scripts"@);
        lemma_scripts_well_keyed(doc.field("scripts"@));
        lemma_lookup_unique(entries, "dependencies"@);
        lemma_dependencies_well_keyed(doc.field("dependencies"@));
        lemma_lookup_unique(entries, "restrict"@);
        lemma_restrict_well_keyed(doc.field("restrict"@));
    } else {
        lemma_lookup_unique(entries, "scripts"@);
        lemma_scripts_well_keyed(doc.field("scripts"@));
        lemma_lookup_unique(entries, "dependencies"@);
        lemma_dependencies_well_keyed(doc.field("dependencies"@));
    }
}

/// Bringing a record of the latest schema up to date changes nothing.
pub proof fn lemma_upgrade_of_latest(config: TomlConfig0_2_2)
    ensures
        AnyTomlConfig::V0_2_2(config).spec_upgrade() == config,
{
}

/// An upgrade keeps every script, dependency and restriction, with its
/// key and its value, in its place; and the name, the version and where
/// the sources come from.
pub proof fn lemma_upgrade_keeps(config: AnyTomlConfig)
    ensures
        config.spec_upgrade().deep_view().scripts == config.deep_view().scripts,
        config.spec_upgrade().deep_view().dependencies == config.deep_view().dependencies,
        config.spec_upgrade().deep_view().restrict == config.deep_view().restrict,
        config.spec_upgrade().deep_view().section.name == config.deep_view().section.name,
        config.spec_upgrade().deep_view().section.version == config.deep_view().section.version,
        config.spec_upgrade().deep_view().section.git == config.deep_view().section.git,
{
}

/// A document that fits a schema is never read under an older one.
pub proof fn lemma_newest_first(doc: NodeModel)
    ensures
        shape_0_2_2(doc) is Some ==> resolved(doc) == Some(
            (Schema::V0_2_2, shape_0_2_2(doc).unwrap()),
        ),
        shape_before(doc, literal_0_2_1()) is Some ==> resolved(doc) is Some && resolved(
            doc,
        ).unwrap().0 != Schema::V0_2_0,
        resolved(doc) is None <==> shape_0_2_2(doc) is None && shape_before(
            doc,
            literal_0_2_1(),
        ) is None && shape_before(doc, literal_0_2_0()) is None,
{
}

/// What stands under each key of the document that a record is written
/// as. A map that the record does not have has no key: nothing is found
/// under it.
pub proof fn lemma_document_fields(config: ConfigModel, version: Seq<char>) -> (doc: NodeModel)
    ensures
        doc == document_of(config, version),
        doc.field("environment"@) == Some(environment_node(literal_0_2_2())),
        doc.field("repository"@) == Some(section_node(config.section, version)),
        doc.field("scripts"@) == optional_scripts_node(config.scripts),
        doc.field("dependencies"@) == optional_dependencies_node(config.dependencies),
        doc.field("restrict"@) == optional_restrict_node(config.restrict),
{
    lemma_keys();
    let environment = ("environment"@, environment_node(literal_0_2_2()));
    let section = ("repository"@, section_node(config.section, version));
    let base = seq![environment, section];
    let with_scripts = with_entry(base, "scripts"@, optional_scripts_node(config.scripts));
    let with_dependencies = with_entry(with_scripts, "dependencies"@, optional_dependencies_node(config.dependencies));
    let with_restrict = with_entry(with_dependencies, "restrict"@, optional_restrict_node(config.restrict));
    lemma_lookup_pair(environment, section, "environment"@);
    lemma_lookup_pair(environment, section, "repository"@);
    lemma_lookup_pair(environment, section, "scripts"@);
    lemma_lookup_pair(environment, section, "dependencies"@);
    lemma_lookup_pair(environment, section, "restrict"@);
    lemma_lookup_with_entry(base, "scripts"@, optional_scripts_node(config.scripts), "environment"@);
    lemma_lookup_with_entry(base, "scripts"@, optional_scripts_node(config.scripts), "repository"@);
    lemma_lookup_with_entry(base, "scripts"@, optional_scripts_node(config.scripts), "scripts"@);
    lemma_lookup_with_entry(base, "scripts"@, optional_scripts_node(config.scripts), "dependencies"@);
    lemma_lookup_with_entry(base, "scripts"@, optional_scripts_node(config.scripts), "restrict"@);
    lemma_lookup_with_entry(with_scripts, "dependencies"@, optional_dependencies_node(config.dependencies), "environment"@);
    lemma_lookup_with_entry(with_scripts, "dependencies"@, optional_dependencies_node(config.dependencies), "repository"@);
    lemma_lookup_with_entry(with_scripts, "dependencies"@, optional_dependencies_node(config.dependencies), "scripts"@);
    lemma_lookup_with_entry(with_scripts, "dependencies"@, optional_dependencies_node(config.dependencies), "dependencies"@);
    lemma_lookup_with_entry(with_scripts, "dependencies"@, optional_dependencies_node(config.dependencies), "restrict"@);
    lemma_lookup_with_entry(with_dependencies, "restrict"@, optional_restrict_node(config.restrict), "environment"@);
    lemma_lookup_with_entry(with_dependencies, "restrict"@, optional_restrict_node(config.restrict), "repository"@);
    lemma_lookup_with_entry(with_dependencies, "restrict"@, optional_restrict_node(config.restrict), "scripts"@);
    lemma_lookup_with_entry(with_dependencies, "restrict"@, optional_restrict_node(config.restrict), "dependencies"@);
    lemma_lookup_with_entry(with_dependencies, "restrict"@, optional_restrict_node(config.restrict), "restrict"@);
    document_of(config, version)
}

/// A map that a record does not have is not written, and a map that is
/// not written is one that the record read from the document does not
/// have: it is read as empty.
pub proof fn lemma_omitted_when_empty(config: ConfigModel, version: Seq<char>, doc: NodeModel)
    ensures
        entries_or_none(config.dependencies).len() == 0 <==> document_of(
            config,
            version,
        ).field("dependencies"@) is None,
        entries_or_none(config.scripts).len() == 0 <==> document_of(config, version).field(
            "scripts"@,
        ) is None,
        doc.field("dependencies"@) is None && shape_0_2_2(doc) is Some ==> shape_0_2_2(
            doc,
        ).unwrap().dependencies is None && entries_or_none(
            shape_0_2_2(doc).unwrap().dependencies,
        ).len() == 0,
        doc.field("scripts"@) is None && shape_0_2_2(doc) is Some ==> shape_0_2_2(
            doc,
        ).unwrap().scripts is None,
{
    lemma_document_fields(config, version);
}

/// A record is read back from the document that it is written as, and
/// under the latest schema: where its names are plain, its version is
/// read back from the text that it is written as, and it is a record of
/// the latest schema and of this kind.
pub proof fn lemma_read_back(config: ConfigModel, version: Seq<char>)
    requires
        plain_name(config.section.name),
        semver_parsed(version) == Some(config.section.version),
        config.section.build is None,
        config.links is None,
        plain_dependencies(config.dependencies),
        plain_restrict(config.restrict),
        written_form(config.scripts),
        written_form(config.dependencies),
        written_restrict(config.restrict),
    ensures
        shape_0_2_2(document_of(config, version)) == Some(config),
        resolved(document_of(config, version)) == Some((Schema::V0_2_2, config)),
{
    lemma_document_fields(config, version);
    lemma_environment_read_back(literal_0_2_2());
    lemma_section_read_back(config.section, version, false, true);
    lemma_scripts_read_back(config.scripts);
    lemma_dependencies_read_back(config.dependencies);
    lemma_restrict_read_back(config.restrict);
}

} // verus!
