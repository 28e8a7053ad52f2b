//! What holds of reading and writing the parts of a `batl.toml`: what is
//! written is read back, and what is read has no key twice.

use vstd::prelude::*;
use crate::document::{
    distinct_keys, lemma_lookup_push, lemma_lookup_unique, lookup, NodeModel, unique_tables,
};
use crate::resource::decode::{
    dependencies_of, dependency_of, inclusion_key, link_of, links_of, optional_dependencies,
    optional_git, optional_links, optional_requirement, optional_restrict, optional_scripts,
    restrict_of, restriction_of, restrictor_of, script_of, scripts_of, section_of, settings_of,
};
use crate::resource::encode::{
    dependency_entries, environment_node, link_entries, optional_dependencies_node,
    optional_git_node, optional_links_node, optional_requirement_node, optional_restrict_node,
    optional_scripts_node, optional_text_node, restrict_entries, restrictor_key, script_entries,
    section_node, settings_node, with_entry,
};
use crate::resource::tomlconfig::{
    entries_or_none, GitModel, Restrictor0_2_2, RestrictRequirement0_2_2, SectionModel,
    SettingsModel, well_keyed_settings,
};
use crate::text::{all_free_of, join, lemma_join_split, lemma_split_join};
use crate::version::semver_parsed;

verus! {

/// What is found in entries after one more may have been added: what was
/// found before, else the new entry where there is one under that key.
pub proof fn lemma_lookup_with_entry(
    entries: Seq<(Seq<char>, NodeModel)>,
    added: Seq<char>,
    node: Option<NodeModel>,
    key: Seq<char>,
)
    ensures
        lookup(with_entry(entries, added, node), key) == match lookup(entries, key) {
            Some(found) => Some(found),
            None => if added == key {
                node
            } else {
                None
            },
        },
{
    match node {
        Some(node) => {
            lemma_lookup_push(entries, (added, node), key);
        },
        None => {},
    }
}

/// What is found in two entries.
pub proof fn lemma_lookup_pair(
    first: (Seq<char>, NodeModel),
    second: (Seq<char>, NodeModel),
    key: Seq<char>,
)
    ensures
        lookup(seq![first, second], key) == if first.0 == key {
            Some(first.1)
        } else if second.0 == key {
            Some(second.1)
        } else {
            None
        },
{
    assert(seq![first, second] =~= Seq::empty().push(first).push(second));
    lemma_lookup_push(Seq::empty(), first, key);
    lemma_lookup_push(Seq::empty().push(first), second, key);
}

/// The keys of a `batl.toml` are told apart by their length and their
/// first letter.
pub proof fn lemma_keys()
    ensures
        "environment"@.len() == 11,
        "repository"@.len() == 10,
        "workspace"@.len() == 9,
        "dependencies"@.len() == 12,
        "restrict"@.len() == 8,
        "links"@.len() == 5 && "links"@[0] == 'l',
        "build"@.len() == 5 && "build"@[0] == 'b',
        "scripts"@.len() == 7 && "scripts"@[0] == 's',
        "version"@.len() == 7 && "version"@[0] == 'v',
        inclusion_key().len() == 7 && inclusion_key()[0] == 'i',
        "name"@.len() == 4 && "name"@[0] == 'n',
        "path"@.len() == 4 && "path"@[0] == 'p',
        "git"@.len() == 3 && "git"@[0] == 'g',
        "url"@.len() == 3 && "url"@[0] == 'u',
{
    reveal_strlit("environment");
    reveal_strlit("repository");
    reveal_strlit("workspace");
    reveal_strlit("dependencies");
    reveal_strlit("restrict");
    reveal_strlit("links");
    reveal_strlit("build");
    reveal_strlit("scripts");
    reveal_strlit("version");
    reveal_strlit("name");
    reveal_strlit("path");
    reveal_strlit("git");
    reveal_strlit("url");
}

/// A name that its text stands for: it has a segment, and none of its
/// segments holds a `/`.
pub open spec fn plain_name(name: Seq<Seq<char>>) -> bool {
    name.len() >= 1 && all_free_of(name, '/')
}

/// Whether a map is in the form that it is written in: it is absent, or
/// it has an entry.
pub open spec fn written_form<T>(map: Option<Seq<T>>) -> bool {
    match map {
        Some(map) => map.len() > 0,
        None => true,
    }
}

/// Whether the dependencies under every condition are in written form.
pub open spec fn written_restrict(restrict: Option<Seq<(Restrictor0_2_2, SettingsModel)>>) -> bool {
    written_form(restrict) && match restrict {
        Some(restrict) => forall|i: int|
            0 <= i < restrict.len() ==> written_form((#[trigger] restrict[i]).1.dependencies),
        None => true,
    }
}

/// Whether every link leads to a plain name.
pub open spec fn plain_links(links: Option<Seq<(Seq<char>, Seq<Seq<char>>)>>) -> bool {
    match links {
        Some(links) => forall|i: int| 0 <= i < links.len() ==> plain_name(#[trigger] links[i].1),
        None => true,
    }
}

/// Whether every dependency is on a plain name.
pub open spec fn plain_dependencies(
    dependencies: Option<Seq<(Seq<Seq<char>>, Seq<char>)>>,
) -> bool {
    match dependencies {
        Some(dependencies) => forall|i: int|
            0 <= i < dependencies.len() ==> plain_name(#[trigger] dependencies[i].0),
        None => true,
    }
}

/// Whether every dependency under every condition is on a plain name.
pub open spec fn plain_restrict(restrict: Option<Seq<(Restrictor0_2_2, SettingsModel)>>) -> bool {
    match restrict {
        Some(restrict) => forall|i: int|
            0 <= i < restrict.len() ==> plain_dependencies(
                (#[trigger] restrict[i]).1.dependencies,
            ),
        None => true,
    }
}

/// Scripts are read back from their table as they were written.
pub proof fn lemma_scripts_read_back(scripts: Option<Seq<(Seq<char>, Seq<char>)>>)
    requires
        written_form(scripts),
    ensures
        optional_scripts(optional_scripts_node(scripts)) == Some(scripts),
{
    match scripts {
        Some(scripts) => {
            let node = NodeModel::Table(script_entries(scripts));
            assert(scripts_of(node) is Some);
            assert(scripts_of(node).unwrap() =~= scripts);
        },
        None => {},
    }
}

/// Links are read back from their table as they were written.
pub proof fn lemma_links_read_back(links: Option<Seq<(Seq<char>, Seq<Seq<char>>)>>)
    requires
        written_form(links),
        plain_links(links),
    ensures
        optional_links(optional_links_node(links)) == Some(links),
{
    match links {
        Some(links) => {
            let entries = link_entries(links);
            let node = NodeModel::Table(entries);
            assert forall|i: int| 0 <= i < entries.len() implies (#[trigger] link_of(
                entries[i].0,
                entries[i].1,
            )) == Some(links[i]) by {
                assert(plain_name(links[i].1));
                lemma_split_join(links[i].1, '/');
            }
            assert(links_of(node) is Some);
            assert(links_of(node).unwrap() =~= links);
        },
        None => {},
    }
}

/// Dependencies are read back from their table as they were written.
pub proof fn lemma_dependencies_read_back(
    dependencies: Option<Seq<(Seq<Seq<char>>, Seq<char>)>>,
)
    requires
        written_form(dependencies),
        plain_dependencies(dependencies),
    ensures
        optional_dependencies(optional_dependencies_node(dependencies)) == Some(dependencies),
{
    match dependencies {
        Some(dependencies) => {
            let entries = dependency_entries(dependencies);
            let node = NodeModel::Table(entries);
            assert forall|i: int| 0 <= i < entries.len() implies (#[trigger] dependency_of(
                entries[i].0,
                entries[i].1,
            )) == Some(dependencies[i]) by {
                assert(plain_name(dependencies[i].0));
                lemma_split_join(dependencies[i].0, '/');
            }
            assert(dependencies_of(node) is Some);
            assert(dependencies_of(node).unwrap() =~= dependencies);
        },
        None => {},
    }
}

/// A git section is read back from its table as it was written.
pub proof fn lemma_git_read_back(git: Option<GitModel>)
    ensures
        optional_git(optional_git_node(git)) == Some(git),
{
    lemma_keys();
    match git {
        Some(git) => {
            let url = ("url"@, NodeModel::Text(git.url));
            let path = ("path"@, NodeModel::Text(git.path));
            lemma_lookup_pair(url, path, "url"@);
            lemma_lookup_pair(url, path, "path"@);
        },
        None => {},
    }
}

/// A section is read back from its table as it was written, where its
/// name is plain, its version is read back from the text that it was
/// written as, and the shape has the fields that the section has.
pub proof fn lemma_section_read_back(
    section: SectionModel,
    version: Seq<char>,
    with_build: bool,
    with_git: bool,
)
    requires
        plain_name(section.name),
        semver_parsed(version) == Some(section.version),
        section.build is Some ==> with_build,
        section.git is Some ==> with_git,
    ensures
        section_of(section_node(section, version), with_build, with_git) == Some(section),
{
    lemma_keys();
    lemma_git_read_back(section.git);
    lemma_split_join(section.name, '/');
    let name = ("name"@, NodeModel::Text(join(section.name, '/')));
    let number = ("version"@, NodeModel::Text(version));
    let base = seq![name, number];
    let build = optional_text_node(section.build);
    let git = optional_git_node(section.git);
    let built = with_entry(base, "build"@, build);
    lemma_lookup_pair(name, number, "name"@);
    lemma_lookup_pair(name, number, "version"@);
    lemma_lookup_pair(name, number, "build"@);
    lemma_lookup_pair(name, number, "git"@);
    lemma_lookup_with_entry(base, "build"@, build, "name"@);
    lemma_lookup_with_entry(base, "build"@, build, "version"@);
    lemma_lookup_with_entry(base, "build"@, build, "build"@);
    lemma_lookup_with_entry(base, "build"@, build, "git"@);
    lemma_lookup_with_entry(built, "git"@, git, "name"@);
    lemma_lookup_with_entry(built, "git"@, git, "version"@);
    lemma_lookup_with_entry(built, "git"@, git, "build"@);
    lemma_lookup_with_entry(built, "git"@, git, "git"@);
}

/// A requirement is read back from its text.
pub proof fn lemma_requirement_read_back(requirement: Option<RestrictRequirement0_2_2>)
    ensures
        optional_requirement(optional_requirement_node(requirement)) == Some(requirement),
{
    reveal_strlit("deny");
    reveal_strlit("allow");
    reveal_strlit("require");
    assert("deny"@.len() == 4 && "allow"@.len() == 5 && "require"@.len() == 7);
}

/// A condition is read back from its key.
pub proof fn lemma_restrictor_read_back(restrictor: Restrictor0_2_2)
    ensures
        restrictor_of(restrictor_key(restrictor)) == Some(restrictor),
{
    reveal_strlit("Windows");
    reveal_strlit("Linux");
    reveal_strlit("Unix");
    reveal_strlit("MacOs");
    assert("Windows"@.len() == 7 && "Linux"@.len() == 5 && "Unix"@.len() == 4);
    assert("MacOs"@.len() == 5 && "MacOs"@[0] == 'M' && "Linux"@[0] == 'L');
}

/// Settings are read back from their table as they were written.
pub proof fn lemma_settings_read_back(settings: SettingsModel)
    requires
        written_form(settings.dependencies),
        plain_dependencies(settings.dependencies),
    ensures
        settings_of(settings_node(settings)) == Some(settings),
{
    lemma_keys();
    lemma_requirement_read_back(settings.inclusion);
    lemma_dependencies_read_back(settings.dependencies);
    let inclusion = optional_requirement_node(settings.inclusion);
    let dependencies = optional_dependencies_node(settings.dependencies);
    let empty = Seq::<(Seq<char>, NodeModel)>::empty();
    let first = with_entry(empty, inclusion_key(), inclusion);
    lemma_lookup_with_entry(empty, inclusion_key(), inclusion, inclusion_key());
    lemma_lookup_with_entry(empty, inclusion_key(), inclusion, "dependencies"@);
    lemma_lookup_with_entry(first, "dependencies"@, dependencies, inclusion_key());
    lemma_lookup_with_entry(first, "dependencies"@, dependencies, "dependencies"@);
}

/// Restrictions are read back from their table as they were written.
pub proof fn lemma_restrict_read_back(restrict: Option<Seq<(Restrictor0_2_2, SettingsModel)>>)
    requires
        written_restrict(restrict),
        plain_restrict(restrict),
    ensures
        optional_restrict(optional_restrict_node(restrict)) == Some(restrict),
{
    match restrict {
        Some(restrict) => {
            let entries = restrict_entries(restrict);
            let node = NodeModel::Table(entries);
            assert forall|i: int| 0 <= i < entries.len() implies (#[trigger] restriction_of(
                entries[i].0,
                entries[i].1,
            )) == Some(restrict[i]) by {
                assert(plain_dependencies(restrict[i].1.dependencies));
                assert(written_form(restrict[i].1.dependencies));
                lemma_restrictor_read_back(restrict[i].0);
                lemma_settings_read_back(restrict[i].1);
            }
            assert(restrict_of(node) is Some);
            assert(restrict_of(node).unwrap() =~= restrict);
        },
        None => {},
    }
}

/// The marker is read back from the environment section.
pub proof fn lemma_environment_read_back(literal: Seq<char>)
    ensures
        environment_node(literal).field("version"@) == Some(NodeModel::Text(literal)),
{
    let entry = ("version"@, NodeModel::Text(literal));
    assert(seq![entry] =~= Seq::empty().push(entry));
    lemma_lookup_push(Seq::empty(), entry, "version"@);
}

/// Scripts that are read from a table without a key twice have no name
/// twice.
pub proof fn lemma_scripts_well_keyed(field: Option<NodeModel>)
    requires
        field matches Some(node) ==> unique_tables(node),
        optional_scripts(field) is Some,
    ensures
        distinct_keys(entries_or_none(optional_scripts(field).unwrap())),
{
    if let Some(node) = field {
        let entries = node->Table_0;
        let scripts = scripts_of(node).unwrap();
        assert forall|i: int, j: int| 0 <= i < j < scripts.len() implies scripts[i].0
            != scripts[j].0 by {
            assert(script_of(entries[i].0, entries[i].1) is Some);
            assert(script_of(entries[j].0, entries[j].1) is Some);
        }
    }
}

/// Links that are read from a table without a key twice have no short
/// name twice.
pub proof fn lemma_links_well_keyed(field: Option<NodeModel>)
    requires
        field matches Some(node) ==> unique_tables(node),
        optional_links(field) is Some,
    ensures
        distinct_keys(entries_or_none(optional_links(field).unwrap())),
{
    if let Some(node) = field {
        let entries = node->Table_0;
        let links = links_of(node).unwrap();
        assert forall|i: int, j: int| 0 <= i < j < links.len() implies links[i].0
            != links[j].0 by {
            assert(link_of(entries[i].0, entries[i].1) is Some);
            assert(link_of(entries[j].0, entries[j].1) is Some);
        }
    }
}

/// Dependencies that are read from a table without a key twice name no
/// resource twice: different texts are different names.
pub proof fn lemma_dependencies_well_keyed(field: Option<NodeModel>)
    requires
        field matches Some(node) ==> unique_tables(node),
        optional_dependencies(field) is Some,
    ensures
        distinct_keys(entries_or_none(optional_dependencies(field).unwrap())),
{
    if let Some(node) = field {
        let entries = node->Table_0;
        let dependencies = dependencies_of(node).unwrap();
        assert forall|i: int, j: int| 0 <= i < j < dependencies.len() implies dependencies[i].0
            != dependencies[j].0 by {
            assert(dependency_of(entries[i].0, entries[i].1) is Some);
            assert(dependency_of(entries[j].0, entries[j].1) is Some);
            lemma_join_split(entries[i].0, '/');
            lemma_join_split(entries[j].0, '/');
        }
    }
}

/// Settings that are read from a table without a key twice name no
/// resource twice.
pub proof fn lemma_settings_well_keyed(node: NodeModel)
    requires
        unique_tables(node),
        settings_of(node) is Some,
    ensures
        well_keyed_settings(settings_of(node).unwrap()),
{
    let field = node.field("dependencies"@);
    lemma_lookup_unique(node->Table_0, "dependencies"@);
    lemma_dependencies_well_keyed(field);
}

/// Restrictions that are read from a table without a key twice have no
/// condition twice, and their settings name no resource twice.
pub proof fn lemma_restrict_well_keyed(field: Option<NodeModel>)
    requires
        field matches Some(node) ==> unique_tables(node),
        optional_restrict(field) is Some,
    ensures
        distinct_keys(entries_or_none(optional_restrict(field).unwrap())),
        forall|i: int|
            0 <= i < entries_or_none(optional_restrict(field).unwrap()).len()
                ==> well_keyed_settings(
                #[trigger] entries_or_none(optional_restrict(field).unwrap())[i].1,
            ),
{
    if let Some(node) = field {
        let entries = node->Table_0;
        let restrict = restrict_of(node).unwrap();
        assert forall|i: int| 0 <= i < restrict.len() implies well_keyed_settings(
            #[trigger] restrict[i].1,
        ) by {
            assert(restriction_of(entries[i].0, entries[i].1) is Some);
            assert(unique_tables(entries[i].1));
            lemma_settings_well_keyed(entries[i].1);
        }
        assert forall|i: int, j: int| 0 <= i < j < restrict.len() implies restrict[i].0
            != restrict[j].0 by {
            assert(restriction_of(entries[i].0, entries[i].1) is Some);
            assert(restriction_of(entries[j].0, entries[j].1) is Some);
        }
    }
}

} // verus!
