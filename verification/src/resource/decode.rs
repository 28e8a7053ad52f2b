//! How the parts of a `batl.toml` are read from a document.

use vstd::prelude::*;
use crate::document::{entries_model, lemma_entries_model, Node, NodeModel};
use crate::resource::Name;
use crate::resource::tomlconfig::{
    Dependencies0_2_0, GitModel, Links0_2_0, Repository0_2_0, Repository0_2_2, RepositoryGit0_2_0,
    Restrict0_2_2, Restrictor0_2_2, RestrictorSettings0_2_2, RestrictRequirement0_2_2,
    Scripts0_2_0, SectionModel, SettingsModel, Workspace0_2_0, Workspace0_2_2,
};
use crate::text::{same_text, split};
use crate::version::{SemVer, semver_parsed, SemVerModel};

verus! {

/// The marker that a document carries: the text of `environment.version`.
pub open spec fn marker_of(doc: NodeModel) -> Option<Seq<char>> {
    match doc.field("environment"@) {
        Some(environment) => match environment.field("version"@) {
            Some(version) => version.text(),
            None => None,
        },
        None => None,
    }
}

/// The name that a node holds as text.
pub open spec fn name_of(node: NodeModel) -> Option<Seq<Seq<char>>> {
    match node.text() {
        Some(text) => Some(split(text, '/')),
        None => None,
    }
}

/// The version that a node holds as text.
pub open spec fn version_of(node: NodeModel) -> Option<SemVerModel> {
    match node.text() {
        Some(text) => semver_parsed(text),
        None => None,
    }
}

/// The git section that a node is: a table with the texts `url` and `path`.
pub open spec fn git_of(node: NodeModel) -> Option<GitModel> {
    match (node.field("url"@), node.field("path"@)) {
        (Some(url), Some(path)) => match (url.text(), path.text()) {
            (Some(url), Some(path)) => Some(GitModel { url, path }),
            _ => None,
        },
        _ => None,
    }
}

/// The text under a field that may be absent. A field that is there and
/// is no text does not fit.
pub open spec fn optional_text(field: Option<NodeModel>) -> Option<Option<Seq<char>>> {
    match field {
        None => Some(None),
        Some(node) => match node.text() {
            Some(text) => Some(Some(text)),
            None => None,
        },
    }
}

/// The git section under a field that may be absent.
pub open spec fn optional_git(field: Option<NodeModel>) -> Option<Option<GitModel>> {
    match field {
        None => Some(None),
        Some(node) => match git_of(node) {
            Some(git) => Some(Some(git)),
            None => None,
        },
    }
}

/// The section that a node is: a table with a name and a version, and,
/// where the shape has them, a build command and a git section.
pub open spec fn section_of(node: NodeModel, with_build: bool, with_git: bool) -> Option<
    SectionModel,
> {
    match (node.field("name"@), node.field("version"@)) {
        (Some(name), Some(version)) => match (
            name_of(name),
            version_of(version),
            optional_text(
                if with_build {
                    node.field("build"@)
                } else {
                    None
                },
            ),
            optional_git(
                if with_git {
                    node.field("git"@)
                } else {
                    None
                },
            ),
        ) {
            (Some(name), Some(version), Some(build), Some(git)) => Some(
                SectionModel { name, version, build, git },
            ),
            _ => None,
        },
        _ => None,
    }
}

/// Whether `doc` carries the marker `literal`.
pub fn has_marker(doc: &Node, literal: &str) -> (carried: bool)
    ensures
        carried == (marker_of(doc.deep_view()) == Some(literal@)),
{
    match doc.get("environment") {
        Some(environment) => match environment.get("version") {
            Some(version) => match version.as_text() {
                Some(text) => same_text(text.as_str(), literal),
                None => false,
            },
            None => false,
        },
        None => false,
    }
}

/// The text that a node holds.
pub fn decode_text(node: &Node) -> (text: Option<String>)
    ensures
        text.deep_view() == node.deep_view().text(),
{
    match node.as_text() {
        Some(text) => Some(text.clone()),
        None => None,
    }
}

/// The name that a node holds as text.
pub fn decode_name(node: &Node) -> (name: Option<Name>)
    ensures
        name.deep_view() == name_of(node.deep_view()),
{
    match node.as_text() {
        Some(text) => Some(Name::parse(text.as_str())),
        None => None,
    }
}

/// The version that a node holds as text.
pub fn decode_version(node: &Node) -> (version: Option<SemVer>)
    ensures
        version.deep_view() == version_of(node.deep_view()),
{
    match node.as_text() {
        Some(text) => SemVer::parse(text.as_str()),
        None => None,
    }
}

/// The git section that a node is.
pub fn decode_git(node: &Node) -> (git: Option<RepositoryGit0_2_0>)
    ensures
        git.deep_view() == git_of(node.deep_view()),
{
    let url = match node.get("url") {
        Some(url) => match decode_text(url) {
            Some(url) => url,
            None => {
                return None;
            },
        },
        None => {
            return None;
        },
    };
    let path = match node.get("path") {
        Some(path) => match decode_text(path) {
            Some(path) => path,
            None => {
                return None;
            },
        },
        None => {
            return None;
        },
    };
    Some(RepositoryGit0_2_0 { url, path })
}

/// The text under a field that may be absent.
pub fn decode_optional_text(field: Option<&Node>) -> (text: Option<Option<String>>)
    ensures
        text.deep_view() == optional_text(field.deep_view()),
{
    match field {
        None => Some(None),
        Some(node) => match decode_text(node) {
            Some(text) => Some(Some(text)),
            None => None,
        },
    }
}

/// The git section under a field that may be absent.
pub fn decode_optional_git(field: Option<&Node>) -> (git: Option<Option<RepositoryGit0_2_0>>)
    ensures
        git.deep_view() == optional_git(field.deep_view()),
{
    match field {
        None => Some(None),
        Some(node) => match decode_git(node) {
            Some(git) => Some(Some(git)),
            None => None,
        },
    }
}

/// The parts of the section that a node is.
fn decode_section(node: &Node, with_build: bool, with_git: bool) -> (section: Option<
    (Name, SemVer, Option<String>, Option<RepositoryGit0_2_0>),
>)
    ensures
        match section {
            Some((name, version, build, git)) => section_of(node.deep_view(), with_build, with_git)
                == Some(
                SectionModel {
                    name: name@,
                    version: version.deep_view(),
                    build: build.deep_view(),
                    git: git.deep_view(),
                },
            ),
            None => section_of(node.deep_view(), with_build, with_git) is None,
        },
{
    let name = match node.get("name") {
        Some(name) => decode_name(name),
        None => {
            return None;
        },
    };
    let version = match node.get("version") {
        Some(version) => decode_version(version),
        None => {
            return None;
        },
    };
    let build = decode_optional_text(
        if with_build {
            node.get("build")
        } else {
            None
        },
    );
    let git = decode_optional_git(
        if with_git {
            node.get("git")
        } else {
            None
        },
    );
    match (name, version, build, git) {
        (Some(name), Some(version), Some(build), Some(git)) => Some((name, version, build, git)),
        _ => None,
    }
}

impl Repository0_2_0 {
    /// The repository section that a node is.
    pub fn decode(node: &Node) -> (section: Option<Repository0_2_0>)
        ensures
            section.deep_view() == section_of(node.deep_view(), true, true),
    {
        match decode_section(node, true, true) {
            Some((name, version, build, git)) => Some(Repository0_2_0 { name, version, build, git }),
            None => None,
        }
    }
}

impl Workspace0_2_0 {
    /// The workspace section that a node is.
    pub fn decode(node: &Node) -> (section: Option<Workspace0_2_0>)
        ensures
            section.deep_view() == section_of(node.deep_view(), true, false),
    {
        match decode_section(node, true, false) {
            Some((name, version, build, _)) => Some(Workspace0_2_0 { name, version, build }),
            None => None,
        }
    }
}

impl Repository0_2_2 {
    /// The repository section that a node is.
    pub fn decode(node: &Node) -> (section: Option<Repository0_2_2>)
        ensures
            section.deep_view() == section_of(node.deep_view(), false, true),
    {
        match decode_section(node, false, true) {
            Some((name, version, _, git)) => Some(Repository0_2_2 { name, version, git }),
            None => None,
        }
    }
}

impl Workspace0_2_2 {
    /// The workspace section that a node is.
    pub fn decode(node: &Node) -> (section: Option<Workspace0_2_2>)
        ensures
            section.deep_view() == section_of(node.deep_view(), false, false),
    {
        match decode_section(node, false, false) {
            Some((name, version, _, _)) => Some(Workspace0_2_2 { name, version }),
            None => None,
        }
    }
}

/// A script: the key is its name, the text its command.
pub open spec fn script_of(key: Seq<char>, node: NodeModel) -> Option<(Seq<char>, Seq<char>)> {
    match node.text() {
        Some(command) => Some((key, command)),
        None => None,
    }
}

/// A link: the key is its short name, the text the repository's name.
pub open spec fn link_of(key: Seq<char>, node: NodeModel) -> Option<(Seq<char>, Seq<Seq<char>>)> {
    match node.text() {
        Some(name) => Some((key, split(name, '/'))),
        None => None,
    }
}

/// A dependency: the key is the resource's name, the text what is asked.
pub open spec fn dependency_of(key: Seq<char>, node: NodeModel) -> Option<
    (Seq<Seq<char>>, Seq<char>),
> {
    match node.text() {
        Some(asked) => Some((split(key, '/'), asked)),
        None => None,
    }
}

/// The scripts that a node holds: it is a table, and every entry of it
/// is a script. They come in the order of the table.
pub open spec fn scripts_of(node: NodeModel) -> Option<Seq<(Seq<char>, Seq<char>)>> {
    match node {
        NodeModel::Table(entries) => if forall|i: int|
            0 <= i < entries.len() ==> (#[trigger] script_of(entries[i].0, entries[i].1)) is Some {
            Some(Seq::new(entries.len(), |i: int| script_of(entries[i].0, entries[i].1).unwrap()))
        } else {
            None
        },
        _ => None,
    }
}

/// The links that a node holds.
pub open spec fn links_of(node: NodeModel) -> Option<Seq<(Seq<char>, Seq<Seq<char>>)>> {
    match node {
        NodeModel::Table(entries) => if forall|i: int|
            0 <= i < entries.len() ==> (#[trigger] link_of(entries[i].0, entries[i].1)) is Some {
            Some(Seq::new(entries.len(), |i: int| link_of(entries[i].0, entries[i].1).unwrap()))
        } else {
            None
        },
        _ => None,
    }
}

/// The dependencies that a node holds.
pub open spec fn dependencies_of(node: NodeModel) -> Option<Seq<(Seq<Seq<char>>, Seq<char>)>> {
    match node {
        NodeModel::Table(entries) => if forall|i: int|
            0 <= i < entries.len() ==> (#[trigger] dependency_of(entries[i].0, entries[i].1)) is Some {
            Some(Seq::new(entries.len(), |i: int| dependency_of(entries[i].0, entries[i].1).unwrap()))
        } else {
            None
        },
        _ => None,
    }
}

/// The key under which a requirement stands.
pub open spec fn inclusion_key() -> Seq<char> {
    seq!['i', 'n', 'c', 'l', 'u', 'd', 'e']
}

/// The condition that a key names.
pub open spec fn restrictor_of(key: Seq<char>) -> Option<Restrictor0_2_2> {
    if key == "Windows"@ {
        Some(Restrictor0_2_2::Windows)
    } else if key == "Linux"@ {
        Some(Restrictor0_2_2::Linux)
    } else if key == "Unix"@ {
        Some(Restrictor0_2_2::Unix)
    } else if key == "MacOs"@ {
        Some(Restrictor0_2_2::MacOs)
    } else {
        None
    }
}

/// The requirement that a text names.
pub open spec fn requirement_named(text: Seq<char>) -> Option<RestrictRequirement0_2_2> {
    if text == "deny"@ {
        Some(RestrictRequirement0_2_2::Deny)
    } else if text == "allow"@ {
        Some(RestrictRequirement0_2_2::Allow)
    } else if text == "require"@ {
        Some(RestrictRequirement0_2_2::Require)
    } else {
        None
    }
}

/// The requirement under a field that may be absent.
pub open spec fn optional_requirement(field: Option<NodeModel>) -> Option<
    Option<RestrictRequirement0_2_2>,
> {
    match field {
        None => Some(None),
        Some(node) => match node.text() {
            Some(text) => match requirement_named(text) {
                Some(requirement) => Some(Some(requirement)),
                None => None,
            },
            None => None,
        },
    }
}

/// The dependencies under a field that may be absent.
pub open spec fn optional_dependencies(field: Option<NodeModel>) -> Option<
    Option<Seq<(Seq<Seq<char>>, Seq<char>)>>,
> {
    match field {
        None => Some(None),
        Some(node) => match dependencies_of(node) {
            Some(dependencies) => Some(Some(dependencies)),
            None => None,
        },
    }
}

/// The scripts under a field that may be absent.
pub open spec fn optional_scripts(field: Option<NodeModel>) -> Option<
    Option<Seq<(Seq<char>, Seq<char>)>>,
> {
    match field {
        None => Some(None),
        Some(node) => match scripts_of(node) {
            Some(scripts) => Some(Some(scripts)),
            None => None,
        },
    }
}

/// The links under a field that may be absent.
pub open spec fn optional_links(field: Option<NodeModel>) -> Option<
    Option<Seq<(Seq<char>, Seq<Seq<char>>)>>,
> {
    match field {
        None => Some(None),
        Some(node) => match links_of(node) {
            Some(links) => Some(Some(links)),
            None => None,
        },
    }
}

/// The settings that a node is: a table, with a requirement and
/// dependencies where it has them.
pub open spec fn settings_of(node: NodeModel) -> Option<SettingsModel> {
    match node {
        NodeModel::Table(_) => match (
            optional_requirement(node.field(inclusion_key())),
            optional_dependencies(node.field("dependencies"@)),
        ) {
            (Some(inclusion), Some(dependencies)) => Some(SettingsModel { inclusion, dependencies }),
            _ => None,
        },
        _ => None,
    }
}

/// A restriction: the key is the condition, the table its settings.
pub open spec fn restriction_of(key: Seq<char>, node: NodeModel) -> Option<
    (Restrictor0_2_2, SettingsModel),
> {
    match (restrictor_of(key), settings_of(node)) {
        (Some(restrictor), Some(settings)) => Some((restrictor, settings)),
        _ => None,
    }
}

/// The restrictions that a node holds.
pub open spec fn restrict_of(node: NodeModel) -> Option<Seq<(Restrictor0_2_2, SettingsModel)>> {
    match node {
        NodeModel::Table(entries) => if forall|i: int|
            0 <= i < entries.len() ==> (#[trigger] restriction_of(entries[i].0, entries[i].1)) is Some {
            Some(Seq::new(entries.len(), |i: int| restriction_of(entries[i].0, entries[i].1).unwrap()))
        } else {
            None
        },
        _ => None,
    }
}

/// The restrictions under a field that may be absent.
pub open spec fn optional_restrict(field: Option<NodeModel>) -> Option<
    Option<Seq<(Restrictor0_2_2, SettingsModel)>>,
> {
    match field {
        None => Some(None),
        Some(node) => match restrict_of(node) {
            Some(restrict) => Some(Some(restrict)),
            None => None,
        },
    }
}

/// The scripts that a node holds.
pub fn decode_scripts(node: &Node) -> (scripts: Option<Scripts0_2_0>)
    ensures
        scripts.deep_view() == scripts_of(node.deep_view()),
{
    let entries = match node.as_entries() {
        Some(entries) => entries,
        None => {
            return None;
        },
    };
    proof {
        lemma_entries_model(entries@);
    }
    let ghost all = entries_model(entries@);
    let mut scripts: Scripts0_2_0 = Vec::new();
    let mut i: usize = 0;
    while i < entries.len()
        invariant
            i <= entries.len(),
            all.len() == entries.len(),
            node.deep_view() == NodeModel::Table(all),
            forall|j: int| 0 <= j < all.len() ==> all[j] == (entries[j].0@, entries[j].1.deep_view()),
            scripts.len() == i,
            forall|j: int|
                0 <= j < i ==> script_of(all[j].0, all[j].1) == Some(#[trigger] scripts[j].deep_view()),
        decreases entries.len() - i,
    {
        match decode_text(&entries[i].1) {
            Some(command) => {
                scripts.push((entries[i].0.clone(), command));
            },
            None => {
                assert(script_of(all[i as int].0, all[i as int].1) is None);
                return None;
            },
        }
        i = i + 1;
    }
    proof {
        assert forall|j: int| 0 <= j < all.len() implies (#[trigger] script_of(all[j].0, all[j].1))
            == Some(scripts.deep_view()[j]) by {
            assert(scripts.deep_view()[j] == scripts[j].deep_view());
        }
        assert(scripts_of(node.deep_view()) is Some);
        assert(scripts.deep_view() =~= scripts_of(node.deep_view()).unwrap());
    }
    Some(scripts)
}

/// The links that a node holds.
pub fn decode_links(node: &Node) -> (links: Option<Links0_2_0>)
    ensures
        links.deep_view() == links_of(node.deep_view()),
{
    let entries = match node.as_entries() {
        Some(entries) => entries,
        None => {
            return None;
        },
    };
    proof {
        lemma_entries_model(entries@);
    }
    let ghost all = entries_model(entries@);
    let mut links: Links0_2_0 = Vec::new();
    let mut i: usize = 0;
    while i < entries.len()
        invariant
            i <= entries.len(),
            all.len() == entries.len(),
            node.deep_view() == NodeModel::Table(all),
            forall|j: int| 0 <= j < all.len() ==> all[j] == (entries[j].0@, entries[j].1.deep_view()),
            links.len() == i,
            forall|j: int|
                0 <= j < i ==> link_of(all[j].0, all[j].1) == Some(#[trigger] links[j].deep_view()),
        decreases entries.len() - i,
    {
        match decode_name(&entries[i].1) {
            Some(name) => {
                links.push((entries[i].0.clone(), name));
            },
            None => {
                assert(link_of(all[i as int].0, all[i as int].1) is None);
                return None;
            },
        }
        i = i + 1;
    }
    proof {
        assert forall|j: int| 0 <= j < all.len() implies (#[trigger] link_of(all[j].0, all[j].1))
            == Some(links.deep_view()[j]) by {
            assert(links.deep_view()[j] == links[j].deep_view());
        }
        assert(links_of(node.deep_view()) is Some);
        assert(links.deep_view() =~= links_of(node.deep_view()).unwrap());
    }
    Some(links)
}

/// The dependencies that a node holds.
pub fn decode_dependencies(node: &Node) -> (dependencies: Option<Dependencies0_2_0>)
    ensures
        dependencies.deep_view() == dependencies_of(node.deep_view()),
{
    let entries = match node.as_entries() {
        Some(entries) => entries,
        None => {
            return None;
        },
    };
    proof {
        lemma_entries_model(entries@);
    }
    let ghost all = entries_model(entries@);
    let mut dependencies: Dependencies0_2_0 = Vec::new();
    let mut i: usize = 0;
    while i < entries.len()
        invariant
            i <= entries.len(),
            all.len() == entries.len(),
            node.deep_view() == NodeModel::Table(all),
            forall|j: int| 0 <= j < all.len() ==> all[j] == (entries[j].0@, entries[j].1.deep_view()),
            dependencies.len() == i,
            forall|j: int|
                0 <= j < i ==> dependency_of(all[j].0, all[j].1) == Some(#[trigger] dependencies[j].deep_view()),
        decreases entries.len() - i,
    {
        match decode_text(&entries[i].1) {
            Some(asked) => {
                dependencies.push((Name::parse(entries[i].0.as_str()), asked));
            },
            None => {
                assert(dependency_of(all[i as int].0, all[i as int].1) is None);
                return None;
            },
        }
        i = i + 1;
    }
    proof {
        assert forall|j: int| 0 <= j < all.len() implies (#[trigger] dependency_of(all[j].0, all[j].1))
            == Some(dependencies.deep_view()[j]) by {
            assert(dependencies.deep_view()[j] == dependencies[j].deep_view());
        }
        assert(dependencies_of(node.deep_view()) is Some);
        assert(dependencies.deep_view() =~= dependencies_of(node.deep_view()).unwrap());
    }
    Some(dependencies)
}

impl Restrictor0_2_2 {
    /// The condition that a key names.
    pub fn parse(key: &str) -> (restrictor: Option<Restrictor0_2_2>)
        ensures
            restrictor == restrictor_of(key@),
    {
        if same_text(key, "Windows") {
            Some(Restrictor0_2_2::Windows)
        } else if same_text(key, "Linux") {
            Some(Restrictor0_2_2::Linux)
        } else if same_text(key, "Unix") {
            Some(Restrictor0_2_2::Unix)
        } else if same_text(key, "MacOs") {
            Some(Restrictor0_2_2::MacOs)
        } else {
            None
        }
    }

    /// The key that names the condition.
    pub fn as_str(&self) -> (key: &'static str)
        ensures
            restrictor_of(key@) == Some(*self),
    {
        proof {
            reveal_strlit("Windows");
            reveal_strlit("Linux");
            reveal_strlit("Unix");
            reveal_strlit("MacOs");
            assert("Windows"@.len() == 7 && "Linux"@.len() == 5 && "Unix"@.len() == 4);
            assert("MacOs"@.len() == 5 && "MacOs"@[0] == 'M' && "Linux"@[0] == 'L');
        }
        match self {
            Restrictor0_2_2::Windows => "Windows",
            Restrictor0_2_2::Linux => "Linux",
            Restrictor0_2_2::Unix => "Unix",
            Restrictor0_2_2::MacOs => "MacOs",
        }
    }
}

impl RestrictRequirement0_2_2 {
    /// The requirement that a text names.
    pub fn parse(text: &str) -> (requirement: Option<RestrictRequirement0_2_2>)
        ensures
            requirement == requirement_named(text@),
    {
        if same_text(text, "deny") {
            Some(RestrictRequirement0_2_2::Deny)
        } else if same_text(text, "allow") {
            Some(RestrictRequirement0_2_2::Allow)
        } else if same_text(text, "require") {
            Some(RestrictRequirement0_2_2::Require)
        } else {
            None
        }
    }

    /// The text that names the requirement.
    pub fn as_str(&self) -> (text: &'static str)
        ensures
            requirement_named(text@) == Some(*self),
    {
        proof {
            reveal_strlit("deny");
            reveal_strlit("allow");
            reveal_strlit("require");
            assert("deny"@.len() == 4 && "allow"@.len() == 5 && "require"@.len() == 7);
        }
        match self {
            RestrictRequirement0_2_2::Deny => "deny",
            RestrictRequirement0_2_2::Allow => "allow",
            RestrictRequirement0_2_2::Require => "require",
        }
    }
}

/// The key under which a requirement stands.
pub fn inclusion_key_text() -> (key: String)
    ensures
        key@ == inclusion_key(),
{
    proof {
        reveal_strlit("incl");
        reveal_strlit("ude");
    }
    let key = String::from_str("incl").concat("ude");
    assert(key@ =~= inclusion_key());
    key
}

/// The requirement under a field that may be absent.
pub fn decode_optional_requirement(field: Option<&Node>) -> (requirement: Option<
    Option<RestrictRequirement0_2_2>,
>)
    ensures
        requirement == optional_requirement(field.deep_view()),
{
    match field {
        None => Some(None),
        Some(node) => match node.as_text() {
            Some(text) => match RestrictRequirement0_2_2::parse(text.as_str()) {
                Some(requirement) => Some(Some(requirement)),
                None => None,
            },
            None => None,
        },
    }
}

/// The dependencies under a field that may be absent.
pub fn decode_optional_dependencies(field: Option<&Node>) -> (dependencies: Option<
    Option<Dependencies0_2_0>,
>)
    ensures
        dependencies.deep_view() == optional_dependencies(field.deep_view()),
{
    match field {
        None => Some(None),
        Some(node) => match decode_dependencies(node) {
            Some(dependencies) => Some(Some(dependencies)),
            None => None,
        },
    }
}

/// The scripts under a field that may be absent.
pub fn decode_optional_scripts(field: Option<&Node>) -> (scripts: Option<Option<Scripts0_2_0>>)
    ensures
        scripts.deep_view() == optional_scripts(field.deep_view()),
{
    match field {
        None => Some(None),
        Some(node) => match decode_scripts(node) {
            Some(scripts) => Some(Some(scripts)),
            None => None,
        },
    }
}

/// The links under a field that may be absent.
pub fn decode_optional_links(field: Option<&Node>) -> (links: Option<Option<Links0_2_0>>)
    ensures
        links.deep_view() == optional_links(field.deep_view()),
{
    match field {
        None => Some(None),
        Some(node) => match decode_links(node) {
            Some(links) => Some(Some(links)),
            None => None,
        },
    }
}

/// The settings that a node is.
pub fn decode_settings(node: &Node) -> (settings: Option<RestrictorSettings0_2_2>)
    ensures
        settings.deep_view() == settings_of(node.deep_view()),
{
    if node.as_entries().is_none() {
        return None;
    }
    let key = inclusion_key_text();
    let inclusion = decode_optional_requirement(node.get(key.as_str()));
    let dependencies = decode_optional_dependencies(node.get("dependencies"));
    match (inclusion, dependencies) {
        (Some(inclusion), Some(dependencies)) => Some(
            RestrictorSettings0_2_2 { inclusion, dependencies },
        ),
        _ => None,
    }
}

/// The restrictions that a node holds.
pub fn decode_restrict(node: &Node) -> (restrict: Option<Restrict0_2_2>)
    ensures
        restrict.deep_view() == restrict_of(node.deep_view()),
{
    let entries = match node.as_entries() {
        Some(entries) => entries,
        None => {
            return None;
        },
    };
    proof {
        lemma_entries_model(entries@);
    }
    let ghost all = entries_model(entries@);
    let mut restrict: Restrict0_2_2 = Vec::new();
    let mut i: usize = 0;
    while i < entries.len()
        invariant
            i <= entries.len(),
            all.len() == entries.len(),
            node.deep_view() == NodeModel::Table(all),
            forall|j: int| 0 <= j < all.len() ==> all[j] == (entries[j].0@, entries[j].1.deep_view()),
            restrict.len() == i,
            forall|j: int|
                0 <= j < i ==> restriction_of(all[j].0, all[j].1) == Some(
                    #[trigger] restrict[j].deep_view(),
                ),
        decreases entries.len() - i,
    {
        let restrictor = Restrictor0_2_2::parse(entries[i].0.as_str());
        let settings = decode_settings(&entries[i].1);
        match (restrictor, settings) {
            (Some(restrictor), Some(settings)) => {
                restrict.push((restrictor, settings));
            },
            _ => {
                assert(restriction_of(all[i as int].0, all[i as int].1) is None);
                return None;
            },
        }
        i = i + 1;
    }
    proof {
        assert forall|j: int| 0 <= j < all.len() implies (#[trigger] restriction_of(
            all[j].0,
            all[j].1,
        )) == Some(restrict.deep_view()[j]) by {
            assert(restrict.deep_view()[j] == restrict[j].deep_view());
        }
        assert(restrict_of(node.deep_view()) is Some);
        assert(restrict.deep_view() =~= restrict_of(node.deep_view()).unwrap());
    }
    Some(restrict)
}

/// The restrictions under a field that may be absent.
pub fn decode_optional_restrict(field: Option<&Node>) -> (restrict: Option<Option<Restrict0_2_2>>)
    ensures
        restrict.deep_view() == optional_restrict(field.deep_view()),
{
    match field {
        None => Some(None),
        Some(node) => match decode_restrict(node) {
            Some(restrict) => Some(Some(restrict)),
            None => None,
        },
    }
}

} // verus!
