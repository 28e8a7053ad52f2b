//! How the parts of a `batl.toml` are written as a document.

use vstd::prelude::*;
use crate::document::{entries_model, Node, NodeModel, push_entry, table_node, text_node};
use crate::resource::Name;
use crate::resource::decode::{inclusion_key, inclusion_key_text};
use crate::resource::tomlconfig::{
    Dependencies0_2_0, GitModel, Links0_2_0, Repository0_2_2, RepositoryGit0_2_0, Restrict0_2_2,
    Restrictor0_2_2, RestrictorSettings0_2_2, RestrictRequirement0_2_2, Scripts0_2_0,
    SectionModel, SettingsModel, Workspace0_2_2,
};
use crate::text::join;
use crate::version::{SemVer, semver_text};

verus! {

/// The entries with one more at the end, where there is one to add.
pub open spec fn with_entry(
    entries: Seq<(Seq<char>, NodeModel)>,
    key: Seq<char>,
    node: Option<NodeModel>,
) -> Seq<(Seq<char>, NodeModel)> {
    match node {
        Some(node) => entries.push((key, node)),
        None => entries,
    }
}

/// The entries that scripts are written as.
pub open spec fn script_entries(scripts: Seq<(Seq<char>, Seq<char>)>) -> Seq<
    (Seq<char>, NodeModel),
> {
    Seq::new(scripts.len(), |i: int| (scripts[i].0, NodeModel::Text(scripts[i].1)))
}

/// The entries that links are written as.
pub open spec fn link_entries(links: Seq<(Seq<char>, Seq<Seq<char>>)>) -> Seq<
    (Seq<char>, NodeModel),
> {
    Seq::new(links.len(), |i: int| (links[i].0, NodeModel::Text(join(links[i].1, '/'))))
}

/// The entries that dependencies are written as.
pub open spec fn dependency_entries(dependencies: Seq<(Seq<Seq<char>>, Seq<char>)>) -> Seq<
    (Seq<char>, NodeModel),
> {
    Seq::new(
        dependencies.len(),
        |i: int| (join(dependencies[i].0, '/'), NodeModel::Text(dependencies[i].1)),
    )
}

/// The table that a git section is written as.
pub open spec fn git_node(git: GitModel) -> NodeModel {
    NodeModel::Table(
        seq![("url"@, NodeModel::Text(git.url)), ("path"@, NodeModel::Text(git.path))],
    )
}

/// A text as a node, where there is one.
pub open spec fn optional_text_node(text: Option<Seq<char>>) -> Option<NodeModel> {
    match text {
        Some(text) => Some(NodeModel::Text(text)),
        None => None,
    }
}

/// A git section as a node, where there is one.
pub open spec fn optional_git_node(git: Option<GitModel>) -> Option<NodeModel> {
    match git {
        Some(git) => Some(git_node(git)),
        None => None,
    }
}

/// The table that a section is written as, given the text of its version.
pub open spec fn section_node(section: SectionModel, version: Seq<char>) -> NodeModel {
    NodeModel::Table(
        with_entry(
            with_entry(
                seq![
                    ("name"@, NodeModel::Text(join(section.name, '/'))),
                    ("version"@, NodeModel::Text(version)),
                ],
                "build"@,
                optional_text_node(section.build),
            ),
            "git"@,
            optional_git_node(section.git),
        ),
    )
}

/// The table that a section is written as. There is none where the
/// version has no text.
pub open spec fn section_written(section: SectionModel) -> Option<NodeModel> {
    match semver_text(section.version) {
        Some(version) => Some(section_node(section, version)),
        None => None,
    }
}

/// The text that names a requirement.
pub open spec fn requirement_text(requirement: RestrictRequirement0_2_2) -> Seq<char> {
    match requirement {
        RestrictRequirement0_2_2::Deny => "deny"@,
        RestrictRequirement0_2_2::Allow => "allow"@,
        RestrictRequirement0_2_2::Require => "require"@,
    }
}

/// The key that names a condition.
pub open spec fn restrictor_key(restrictor: Restrictor0_2_2) -> Seq<char> {
    match restrictor {
        Restrictor0_2_2::Windows => "Windows"@,
        Restrictor0_2_2::Linux => "Linux"@,
        Restrictor0_2_2::Unix => "Unix"@,
        Restrictor0_2_2::MacOs => "MacOs"@,
    }
}

/// A requirement as a node, where there is one.
pub open spec fn optional_requirement_node(
    requirement: Option<RestrictRequirement0_2_2>,
) -> Option<NodeModel> {
    match requirement {
        Some(requirement) => Some(NodeModel::Text(requirement_text(requirement))),
        None => None,
    }
}

/// Dependencies as a node, where there are any: an empty map is not
/// written.
pub open spec fn optional_dependencies_node(
    dependencies: Option<Seq<(Seq<Seq<char>>, Seq<char>)>>,
) -> Option<NodeModel> {
    match dependencies {
        Some(dependencies) => if dependencies.len() == 0 {
            None
        } else {
            Some(NodeModel::Table(dependency_entries(dependencies)))
        },
        None => None,
    }
}

/// Scripts as a node, where there are any: an empty map is not written.
pub open spec fn optional_scripts_node(scripts: Option<Seq<(Seq<char>, Seq<char>)>>) -> Option<
    NodeModel,
> {
    match scripts {
        Some(scripts) => if scripts.len() == 0 {
            None
        } else {
            Some(NodeModel::Table(script_entries(scripts)))
        },
        None => None,
    }
}

/// Links as a node, where there are any: an empty map is not written.
pub open spec fn optional_links_node(links: Option<Seq<(Seq<char>, Seq<Seq<char>>)>>) -> Option<
    NodeModel,
> {
    match links {
        Some(links) => if links.len() == 0 {
            None
        } else {
            Some(NodeModel::Table(link_entries(links)))
        },
        None => None,
    }
}

/// The table that settings are written as.
pub open spec fn settings_node(settings: SettingsModel) -> NodeModel {
    NodeModel::Table(
        with_entry(
            with_entry(
                Seq::empty(),
                inclusion_key(),
                optional_requirement_node(settings.inclusion),
            ),
            "dependencies"@,
            optional_dependencies_node(settings.dependencies),
        ),
    )
}

/// The entries that restrictions are written as.
pub open spec fn restrict_entries(restrict: Seq<(Restrictor0_2_2, SettingsModel)>) -> Seq<
    (Seq<char>, NodeModel),
> {
    Seq::new(
        restrict.len(),
        |i: int| (restrictor_key(restrict[i].0), settings_node(restrict[i].1)),
    )
}

/// Restrictions as a node, where there are any: an empty map is not
/// written.
pub open spec fn optional_restrict_node(
    restrict: Option<Seq<(Restrictor0_2_2, SettingsModel)>>,
) -> Option<NodeModel> {
    match restrict {
        Some(restrict) => if restrict.len() == 0 {
            None
        } else {
            Some(NodeModel::Table(restrict_entries(restrict)))
        },
        None => None,
    }
}

/// The table that an environment section is written as.
pub open spec fn environment_node(literal: Seq<char>) -> NodeModel {
    NodeModel::Table(seq![("version"@, NodeModel::Text(literal))])
}

/// Adds an entry at the end of a table's entries, where there is one.
pub fn push_optional(entries: &mut Vec<(String, Node)>, key: &str, node: Option<Node>)
    ensures
        entries_model(final(entries)@) == with_entry(
            entries_model(old(entries)@),
            key@,
            node.deep_view(),
        ),
{
    match node {
        Some(node) => {
            push_entry(entries, key, node);
        },
        None => {},
    }
}

/// Scripts as a table.
pub fn encode_scripts(scripts: &Scripts0_2_0) -> (node: Node)
    ensures
        node.deep_view() == NodeModel::Table(script_entries(scripts.deep_view())),
{
    let ghost all = scripts.deep_view();
    let mut entries: Vec<(String, Node)> = Vec::new();
    let mut i: usize = 0;
    assert(entries_model(entries@) =~= script_entries(all.subrange(0, 0)));
    while i < scripts.len()
        invariant
            i <= scripts.len(),
            all == scripts.deep_view(),
            entries_model(entries@) == script_entries(all.subrange(0, i as int)),
        decreases scripts.len() - i,
    {
        let ghost before = entries_model(entries@);
        push_entry(&mut entries, scripts[i].0.as_str(), text_node(scripts[i].1.as_str()));
        assert(all[i as int] == (scripts[i as int].0@, scripts[i as int].1@));
        assert(entries_model(entries@) =~= script_entries(all.subrange(0, i + 1)));
        i = i + 1;
    }
    assert(all.subrange(0, scripts.len() as int) =~= all);
    table_node(entries)
}

/// Links as a table.
pub fn encode_links(links: &Links0_2_0) -> (node: Node)
    ensures
        node.deep_view() == NodeModel::Table(link_entries(links.deep_view())),
{
    let ghost all = links.deep_view();
    let mut entries: Vec<(String, Node)> = Vec::new();
    let mut i: usize = 0;
    assert(entries_model(entries@) =~= link_entries(all.subrange(0, 0)));
    while i < links.len()
        invariant
            i <= links.len(),
            all == links.deep_view(),
            entries_model(entries@) == link_entries(all.subrange(0, i as int)),
        decreases links.len() - i,
    {
        let name = links[i].1.to_string();
        push_entry(&mut entries, links[i].0.as_str(), text_node(name.as_str()));
        assert(all[i as int] == (links[i as int].0@, links[i as int].1@));
        assert(entries_model(entries@) =~= link_entries(all.subrange(0, i + 1)));
        i = i + 1;
    }
    assert(all.subrange(0, links.len() as int) =~= all);
    table_node(entries)
}

/// Dependencies as a table.
pub fn encode_dependencies(dependencies: &Dependencies0_2_0) -> (node: Node)
    ensures
        node.deep_view() == NodeModel::Table(dependency_entries(dependencies.deep_view())),
{
    let ghost all = dependencies.deep_view();
    let mut entries: Vec<(String, Node)> = Vec::new();
    let mut i: usize = 0;
    assert(entries_model(entries@) =~= dependency_entries(all.subrange(0, 0)));
    while i < dependencies.len()
        invariant
            i <= dependencies.len(),
            all == dependencies.deep_view(),
            entries_model(entries@) == dependency_entries(all.subrange(0, i as int)),
        decreases dependencies.len() - i,
    {
        let name = dependencies[i].0.to_string();
        push_entry(&mut entries, name.as_str(), text_node(dependencies[i].1.as_str()));
        assert(all[i as int] == (dependencies[i as int].0@, dependencies[i as int].1@));
        assert(entries_model(entries@) =~= dependency_entries(all.subrange(0, i + 1)));
        i = i + 1;
    }
    assert(all.subrange(0, dependencies.len() as int) =~= all);
    table_node(entries)
}

/// A git section as a table.
pub fn encode_git(git: &RepositoryGit0_2_0) -> (node: Node)
    ensures
        node.deep_view() == git_node(git.deep_view()),
{
    let mut entries: Vec<(String, Node)> = Vec::new();
    assert(entries_model(entries@) =~= Seq::empty());
    push_entry(&mut entries, "url", text_node(git.url.as_str()));
    push_entry(&mut entries, "path", text_node(git.path.as_str()));
    assert(entries_model(entries@) =~= git_node(git.deep_view())->Table_0);
    table_node(entries)
}

/// A section as a table. There is none where the version has no text.
fn encode_section(
    name: &Name,
    version: &SemVer,
    build: &Option<String>,
    git: &Option<RepositoryGit0_2_0>,
) -> (node: Option<Node>)
    ensures
        node.deep_view() == section_written(
            SectionModel {
                name: name@,
                version: version.deep_view(),
                build: build.deep_view(),
                git: git.deep_view(),
            },
        ),
{
    let version = match version.to_string() {
        Some(version) => version,
        None => {
            return None;
        },
    };
    let mut entries: Vec<(String, Node)> = Vec::new();
    assert(entries_model(entries@) =~= Seq::empty());
    let name = name.to_string();
    push_entry(&mut entries, "name", text_node(name.as_str()));
    push_entry(&mut entries, "version", text_node(version.as_str()));
    assert(entries_model(entries@) =~= seq![
        ("name"@, NodeModel::Text(name@)),
        ("version"@, NodeModel::Text(version@)),
    ]);
    let build = match build {
        Some(build) => Some(text_node(build.as_str())),
        None => None,
    };
    push_optional(&mut entries, "build", build);
    let git = match git {
        Some(git) => Some(encode_git(git)),
        None => None,
    };
    push_optional(&mut entries, "git", git);
    Some(table_node(entries))
}

impl Repository0_2_2 {
    /// The section as a table. There is none where the version has no text.
    pub fn encode(&self) -> (node: Option<Node>)
        ensures
            node.deep_view() == section_written(self.deep_view()),
    {
        encode_section(&self.name, &self.version, &None, &self.git)
    }
}

impl Workspace0_2_2 {
    /// The section as a table. There is none where the version has no text.
    pub fn encode(&self) -> (node: Option<Node>)
        ensures
            node.deep_view() == section_written(self.deep_view()),
    {
        encode_section(&self.name, &self.version, &None, &None)
    }
}

/// Settings as a table.
pub fn encode_settings(settings: &RestrictorSettings0_2_2) -> (node: Node)
    ensures
        node.deep_view() == settings_node(settings.deep_view()),
{
    let mut entries: Vec<(String, Node)> = Vec::new();
    assert(entries_model(entries@) =~= Seq::empty());
    let inclusion = match &settings.inclusion {
        Some(requirement) => Some(text_node(requirement.as_str())),
        None => None,
    };
    let key = inclusion_key_text();
    push_optional(&mut entries, key.as_str(), inclusion);
    let dependencies = encode_optional_dependencies(&settings.dependencies);
    push_optional(&mut entries, "dependencies", dependencies);
    table_node(entries)
}

/// Restrictions as a table.
pub fn encode_restrict(restrict: &Restrict0_2_2) -> (node: Node)
    ensures
        node.deep_view() == NodeModel::Table(restrict_entries(restrict.deep_view())),
{
    let ghost all = restrict.deep_view();
    let mut entries: Vec<(String, Node)> = Vec::new();
    let mut i: usize = 0;
    assert(entries_model(entries@) =~= restrict_entries(all.subrange(0, 0)));
    while i < restrict.len()
        invariant
            i <= restrict.len(),
            all == restrict.deep_view(),
            entries_model(entries@) == restrict_entries(all.subrange(0, i as int)),
        decreases restrict.len() - i,
    {
        push_entry(&mut entries, restrict[i].0.as_str(), encode_settings(&restrict[i].1));
        assert(all[i as int] == (restrict[i as int].0, restrict[i as int].1.deep_view()));
        assert(entries_model(entries@) =~= restrict_entries(all.subrange(0, i + 1)));
        i = i + 1;
    }
    assert(all.subrange(0, restrict.len() as int) =~= all);
    table_node(entries)
}

/// Scripts as a table, where there are any.
pub fn encode_optional_scripts(scripts: &Option<Scripts0_2_0>) -> (node: Option<Node>)
    ensures
        node.deep_view() == optional_scripts_node(scripts.deep_view()),
{
    match scripts {
        Some(scripts) => if scripts.len() == 0 {
            None
        } else {
            Some(encode_scripts(scripts))
        },
        None => None,
    }
}

/// Links as a table, where there are any.
pub fn encode_optional_links(links: &Option<Links0_2_0>) -> (node: Option<Node>)
    ensures
        node.deep_view() == optional_links_node(links.deep_view()),
{
    match links {
        Some(links) => if links.len() == 0 {
            None
        } else {
            Some(encode_links(links))
        },
        None => None,
    }
}

/// Dependencies as a table, where there are any.
pub fn encode_optional_dependencies(dependencies: &Option<Dependencies0_2_0>) -> (node: Option<
    Node,
>)
    ensures
        node.deep_view() == optional_dependencies_node(dependencies.deep_view()),
{
    match dependencies {
        Some(dependencies) => if dependencies.len() == 0 {
            None
        } else {
            Some(encode_dependencies(dependencies))
        },
        None => None,
    }
}

/// Restrictions as a table, where there are any.
pub fn encode_optional_restrict(restrict: &Option<Restrict0_2_2>) -> (node: Option<Node>)
    ensures
        node.deep_view() == optional_restrict_node(restrict.deep_view()),
{
    match restrict {
        Some(restrict) => if restrict.len() == 0 {
            None
        } else {
            Some(encode_restrict(restrict))
        },
        None => None,
    }
}

/// An environment section as a table.
pub fn encode_environment(literal: &str) -> (node: Node)
    ensures
        node.deep_view() == environment_node(literal@),
{
    let mut entries: Vec<(String, Node)> = Vec::new();
    assert(entries_model(entries@) =~= Seq::empty());
    push_entry(&mut entries, "version", text_node(literal));
    assert(entries_model(entries@) =~= environment_node(literal@)->Table_0);
    table_node(entries)
}

} // verus!
