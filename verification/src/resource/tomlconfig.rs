//! The shapes that a `batl.toml` has had, schema by schema, and what each
//! is as a value of mathematics.

use vstd::prelude::*;
use crate::document::distinct_keys;
use crate::resource::Name;
use crate::version::{SemVer, SemVerModel, Version0_2_0, Version0_2_1, Version0_2_2};

verus! {

pub type EnvironmentLatest = Environment0_2_2;

pub type RepositoryLatest = Repository0_2_2;

pub type WorkspaceLatest = Workspace0_2_2;

pub type ScriptsLatest = Scripts0_2_2;

pub type DependenciesLatest = Dependencies0_2_2;

pub type RestrictLatest = Restrict0_2_2;

pub type RestrictorLatest = Restrictor0_2_2;

/// The environment section of schema 0.2.0: it holds the schema's marker.
#[derive(Debug, Clone, Copy, PartialEq, Eq, Structural)]
pub struct Environment0_2_0 {
    pub version: Version0_2_0,
}

/// The environment section of schema 0.2.1: it holds the schema's marker.
#[derive(Debug, Clone, Copy, PartialEq, Eq, Structural)]
pub struct Environment0_2_1 {
    pub version: Version0_2_1,
}

/// The environment section of schema 0.2.2: it holds the schema's marker.
#[derive(Debug, Clone, Copy, PartialEq, Eq, Structural)]
pub struct Environment0_2_2 {
    pub version: Version0_2_2,
}

impl Default for Environment0_2_2 {
    fn default() -> (environment: Environment0_2_2)
        ensures
            environment == (Environment0_2_2 { version: Version0_2_2 }),
    {
        Environment0_2_2 { version: Version0_2_2 }
    }
}

/// Where the sources of a repository come from.
#[derive(Debug, Clone, PartialEq, Eq)]
pub struct RepositoryGit0_2_0 {
    /// The remote to clone.
    pub url: String,
    /// The directory, below the repository, that the clone goes to.
    pub path: String,
}

pub type RepositoryGit0_2_1 = RepositoryGit0_2_0;

pub type RepositoryGit0_2_2 = RepositoryGit0_2_1;

/// The repository section up to schema 0.2.1.
#[derive(Debug, Clone, PartialEq, Eq)]
pub struct Repository0_2_0 {
    pub name: Name,
    pub version: SemVer,
    pub build: Option<String>,
    pub git: Option<RepositoryGit0_2_0>,
}

pub type Repository0_2_1 = Repository0_2_0;

/// The workspace section up to schema 0.2.1.
#[derive(Debug, Clone, PartialEq, Eq)]
pub struct Workspace0_2_0 {
    pub name: Name,
    pub version: SemVer,
    pub build: Option<String>,
}

pub type Workspace0_2_1 = Workspace0_2_0;

/// The repository section of schema 0.2.2.
#[derive(Debug, Clone, PartialEq, Eq)]
pub struct Repository0_2_2 {
    pub name: Name,
    pub version: SemVer,
    pub git: Option<RepositoryGit0_2_2>,
}

/// The workspace section of schema 0.2.2.
#[derive(Debug, Clone, PartialEq, Eq)]
pub struct Workspace0_2_2 {
    pub name: Name,
    pub version: SemVer,
}

/// Links of a workspace: the short name of each with the repository it
/// stands for. No short name occurs twice.
pub type Links0_2_0 = Vec<(String, Name)>;

pub type Links0_2_1 = Links0_2_0;

pub type Links0_2_2 = Links0_2_1;

/// Scripts: the name of each with its shell command. No name occurs twice.
pub type Scripts0_2_0 = Vec<(String, String)>;

pub type Scripts0_2_1 = Scripts0_2_0;

pub type Scripts0_2_2 = Scripts0_2_1;

/// Dependencies: each resource with the versions asked of it. No resource
/// occurs twice.
pub type Dependencies0_2_0 = Vec<(Name, String)>;

pub type Dependencies0_2_1 = Dependencies0_2_0;

pub type Dependencies0_2_2 = Dependencies0_2_1;

/// Restrictions: each condition with what holds under it. No condition
/// occurs twice.
pub type Restrict0_2_2 = Vec<(Restrictor0_2_2, RestrictorSettings0_2_2)>;

/// A condition on the system that a repository is used on.
#[derive(Debug, Clone, Copy, PartialEq, Eq, Hash, Structural)]
pub enum Restrictor0_2_2 {
    Windows,
    Linux,
    Unix,
    MacOs,
}

/// What holds of a repository under one condition.
#[derive(Debug, Clone, PartialEq, Eq)]
pub struct RestrictorSettings0_2_2 {
    pub inclusion: Option<RestrictRequirement0_2_2>,
    pub dependencies: Option<Dependencies0_2_2>,
}

/// Whether a repository may, must or must not be used under a condition.
#[derive(Debug, Clone, Copy, PartialEq, Eq, Structural)]
pub enum RestrictRequirement0_2_2 {
    Deny,
    Allow,
    Require,
}

/// A schema that a `batl.toml` may have been written under.
#[derive(Debug, Clone, Copy, PartialEq, Eq, Structural)]
pub enum Schema {
    V0_2_0,
    V0_2_1,
    V0_2_2,
}

/// A map as a node, where it has entries: an empty map is not written.
pub open spec fn kept<T>(map: Seq<T>) -> Option<Seq<T>> {
    if map.len() == 0 {
        None
    } else {
        Some(map)
    }
}

/// The entries of a map that may be absent: an absent map is empty.
pub open spec fn entries_or_none<T>(map: Option<Seq<T>>) -> Seq<T> {
    match map {
        Some(map) => map,
        None => Seq::empty(),
    }
}

/// What a git section is, mathematically.
pub struct GitModel {
    pub url: Seq<char>,
    pub path: Seq<char>,
}

/// What a repository or workspace section is, mathematically. A shape
/// without a `build` or a `git` field has none.
pub struct SectionModel {
    pub name: Seq<Seq<char>>,
    pub version: SemVerModel,
    pub build: Option<Seq<char>>,
    pub git: Option<GitModel>,
}

/// What the settings under a condition are, mathematically.
pub struct SettingsModel {
    pub inclusion: Option<RestrictRequirement0_2_2>,
    pub dependencies: Option<Seq<(Seq<Seq<char>>, Seq<char>)>>,
}

/// What a configuration record is, mathematically, whatever its schema
/// and kind. A shape without one of the maps has none.
pub struct ConfigModel {
    pub section: SectionModel,
    pub links: Option<Seq<(Seq<char>, Seq<Seq<char>>)>>,
    pub scripts: Option<Seq<(Seq<char>, Seq<char>)>>,
    pub dependencies: Option<Seq<(Seq<Seq<char>>, Seq<char>)>>,
    pub restrict: Option<Seq<(Restrictor0_2_2, SettingsModel)>>,
}

/// Whether the dependencies of settings name no resource twice.
pub open spec fn well_keyed_settings(settings: SettingsModel) -> bool {
    match settings.dependencies {
        Some(dependencies) => distinct_keys(dependencies),
        None => true,
    }
}

/// Whether no map of a record has a key twice: every one is a map.
pub open spec fn well_keyed(config: ConfigModel) -> bool {
    &&& distinct_keys(entries_or_none(config.links))
    &&& distinct_keys(entries_or_none(config.scripts))
    &&& distinct_keys(entries_or_none(config.dependencies))
    &&& distinct_keys(entries_or_none(config.restrict))
    &&& forall|i: int|
        0 <= i < entries_or_none(config.restrict).len() ==> well_keyed_settings(
            #[trigger] entries_or_none(config.restrict)[i].1,
        )
}

impl DeepView for RepositoryGit0_2_0 {
    type V = GitModel;

    open spec fn deep_view(&self) -> GitModel {
        GitModel { url: self.url@, path: self.path@ }
    }
}

impl DeepView for Repository0_2_0 {
    type V = SectionModel;

    open spec fn deep_view(&self) -> SectionModel {
        SectionModel {
            name: self.name@,
            version: self.version.deep_view(),
            build: self.build.deep_view(),
            git: self.git.deep_view(),
        }
    }
}

impl DeepView for Workspace0_2_0 {
    type V = SectionModel;

    open spec fn deep_view(&self) -> SectionModel {
        SectionModel {
            name: self.name@,
            version: self.version.deep_view(),
            build: self.build.deep_view(),
            git: None,
        }
    }
}

impl DeepView for Repository0_2_2 {
    type V = SectionModel;

    open spec fn deep_view(&self) -> SectionModel {
        SectionModel {
            name: self.name@,
            version: self.version.deep_view(),
            build: None,
            git: self.git.deep_view(),
        }
    }
}

impl DeepView for Workspace0_2_2 {
    type V = SectionModel;

    open spec fn deep_view(&self) -> SectionModel {
        SectionModel {
            name: self.name@,
            version: self.version.deep_view(),
            build: None,
            git: None,
        }
    }
}

impl DeepView for Restrictor0_2_2 {
    type V = Restrictor0_2_2;

    open spec fn deep_view(&self) -> Restrictor0_2_2 {
        *self
    }
}

impl DeepView for RestrictRequirement0_2_2 {
    type V = RestrictRequirement0_2_2;

    open spec fn deep_view(&self) -> RestrictRequirement0_2_2 {
        *self
    }
}

impl DeepView for RestrictorSettings0_2_2 {
    type V = SettingsModel;

    open spec fn deep_view(&self) -> SettingsModel {
        SettingsModel {
            inclusion: self.inclusion.deep_view(),
            dependencies: self.dependencies.deep_view(),
        }
    }
}

/// Returns `None` if a map is empty.
pub fn hashmap_to_option_hashmap<T>(map: Vec<T>) -> (kept: Option<Vec<T>>)
    ensures
        kept == if map@.len() == 0 {
            None
        } else {
            Some(map)
        },
{
    if map.len() == 0 {
        None
    } else {
        Some(map)
    }
}

/// A copy of scripts.
pub fn clone_scripts(scripts: &Scripts0_2_0) -> (copy: Scripts0_2_0)
    ensures
        copy.deep_view() == scripts.deep_view(),
{
    let mut copy: Scripts0_2_0 = Vec::new();
    let mut i: usize = 0;
    while i < scripts.len()
        invariant
            i <= scripts.len(),
            copy.len() == i,
            forall|j: int| 0 <= j < i ==> copy[j].deep_view() == scripts[j].deep_view(),
        decreases scripts.len() - i,
    {
        copy.push((scripts[i].0.clone(), scripts[i].1.clone()));
        i = i + 1;
    }
    assert(copy.deep_view() =~= scripts.deep_view());
    copy
}

/// A copy of links.
pub fn clone_links(links: &Links0_2_0) -> (copy: Links0_2_0)
    ensures
        copy.deep_view() == links.deep_view(),
{
    let mut copy: Links0_2_0 = Vec::new();
    let mut i: usize = 0;
    while i < links.len()
        invariant
            i <= links.len(),
            copy.len() == i,
            forall|j: int| 0 <= j < i ==> copy[j].deep_view() == links[j].deep_view(),
        decreases links.len() - i,
    {
        copy.push((links[i].0.clone(), links[i].1.clone()));
        i = i + 1;
    }
    assert(copy.deep_view() =~= links.deep_view());
    copy
}

/// A copy of dependencies.
pub fn clone_dependencies(dependencies: &Dependencies0_2_0) -> (copy: Dependencies0_2_0)
    ensures
        copy.deep_view() == dependencies.deep_view(),
{
    let mut copy: Dependencies0_2_0 = Vec::new();
    let mut i: usize = 0;
    while i < dependencies.len()
        invariant
            i <= dependencies.len(),
            copy.len() == i,
            forall|j: int| 0 <= j < i ==> copy[j].deep_view() == dependencies[j].deep_view(),
        decreases dependencies.len() - i,
    {
        copy.push((dependencies[i].0.clone(), dependencies[i].1.clone()));
        i = i + 1;
    }
    assert(copy.deep_view() =~= dependencies.deep_view());
    copy
}

} // verus!
