//! A configuration record is a repository's or a workspace's, never both.

use vstd::prelude::*;
use crate::document::NodeModel;
use crate::resource::{repository, workspace};
use crate::resource::encode::{
    environment_node, optional_dependencies_node, optional_links_node, optional_restrict_node,
    optional_scripts_node, section_node, with_entry,
};
use crate::resource::read_back::{
    lemma_environment_read_back, lemma_keys, lemma_lookup_pair, lemma_lookup_with_entry,
};
use crate::resource::tomlconfig::ConfigModel;
use crate::version::{literal_0_2_0, literal_0_2_1, literal_0_2_2};

verus! {

/// The markers of the schemas differ.
pub proof fn lemma_markers_differ()
    ensures
        literal_0_2_0() != literal_0_2_1(),
        literal_0_2_0() != literal_0_2_2(),
        literal_0_2_1() != literal_0_2_2(),
{
    assert(literal_0_2_0()[4] == '0');
    assert(literal_0_2_1()[4] == '1');
    assert(literal_0_2_2()[4] == '2');
}

/// A document carries one marker, so it fits the shape of at most one
/// schema of each kind.
pub proof fn lemma_fits_one_schema(doc: NodeModel)
    ensures
        !(workspace::shape_0_2_2(doc) is Some && workspace::shape_before(
            doc,
            literal_0_2_1(),
        ) is Some),
        !(workspace::shape_0_2_2(doc) is Some && workspace::shape_before(
            doc,
            literal_0_2_0(),
        ) is Some),
        !(workspace::shape_before(doc, literal_0_2_1()) is Some && workspace::shape_before(
            doc,
            literal_0_2_0(),
        ) is Some),
        !(repository::shape_0_2_2(doc) is Some && repository::shape_before(
            doc,
            literal_0_2_1(),
        ) is Some),
        !(repository::shape_0_2_2(doc) is Some && repository::shape_before(
            doc,
            literal_0_2_0(),
        ) is Some),
        !(repository::shape_before(doc, literal_0_2_1()) is Some && repository::shape_before(
            doc,
            literal_0_2_0(),
        ) is Some),
{
    lemma_markers_differ();
}

/// What is written as a workspace's record is not read as a repository's:
/// it describes no repository.
pub proof fn lemma_workspace_is_no_repository(config: ConfigModel, version: Seq<char>)
    ensures
        repository::resolved(workspace::document_of(config, version)) is None,
{
    lemma_markers_differ();
    lemma_environment_read_back(literal_0_2_2());
    workspace::lemma_document_fields(config, version);
    let doc = workspace::document_of(config, version);
    assert(doc.field("repository"@) is None) by {
        lemma_absent_from_workspace(config, version);
    }
}

/// What is written as a repository's record is not read as a workspace's:
/// under the latest schema it describes no workspace.
pub proof fn lemma_repository_is_no_workspace(config: ConfigModel, version: Seq<char>)
    ensures
        workspace::resolved(repository::document_of(config, version)) is None,
{
    lemma_markers_differ();
    lemma_environment_read_back(literal_0_2_2());
    repository::lemma_document_fields(config, version);
    let doc = repository::document_of(config, version);
    assert(doc.field("workspace"@) is None) by {
        lemma_absent_from_repository(config, version);
    }
}

/// A workspace's document has nothing under `repository`.
proof fn lemma_absent_from_workspace(config: ConfigModel, version: Seq<char>)
    ensures
        workspace::document_of(config, version).field("repository"@) is None,
{
    lemma_keys();
    let environment = ("environment"@, environment_node(literal_0_2_2()));
    let section = ("workspace"@, section_node(config.section, version));
    let base = seq![environment, section];
    let links = optional_links_node(config.links);
    let scripts = optional_scripts_node(config.scripts);
    let dependencies = optional_dependencies_node(config.dependencies);
    let with_links = with_entry(base, "links"@, links);
    let with_scripts = with_entry(with_links, "scripts"@, scripts);
    lemma_lookup_pair(environment, section, "repository"@);
    lemma_lookup_with_entry(base, "links"@, links, "repository"@);
    lemma_lookup_with_entry(
        with_links,
        "scripts"@,
        scripts,
        "repository"@,
    );
    lemma_lookup_with_entry(
        with_scripts,
        "dependencies"@,
        dependencies,
        "repository"@,
    );
}

/// A repository's document has nothing under `workspace`.
proof fn lemma_absent_from_repository(config: ConfigModel, version: Seq<char>)
    ensures
        repository::document_of(config, version).field("workspace"@) is None,
{
    lemma_keys();
    let environment = ("environment"@, environment_node(literal_0_2_2()));
    let section = ("repository"@, section_node(config.section, version));
    let base = seq![environment, section];
    let scripts = optional_scripts_node(config.scripts);
    let dependencies = optional_dependencies_node(config.dependencies);
    let restrict = optional_restrict_node(config.restrict);
    let with_scripts = with_entry(base, "scripts"@, scripts);
    let with_dependencies = with_entry(
        with_scripts,
        "dependencies"@,
        dependencies,
    );
    lemma_lookup_pair(environment, section, "workspace"@);
    lemma_lookup_with_entry(base, "scripts"@, scripts, "workspace"@);
    lemma_lookup_with_entry(
        with_scripts,
        "dependencies"@,
        dependencies,
        "workspace"@,
    );
    lemma_lookup_with_entry(
        with_dependencies,
        "restrict"@,
        restrict,
        "workspace"@,
    );
}

} // verus!
