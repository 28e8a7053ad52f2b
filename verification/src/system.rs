//! The roots under which Battalion keeps its resources.

use vstd::prelude::*;
use crate::path::{FsPath, PathModel};
use crate::resource::{encode_path, Name};
use crate::text::join;

verus! {

/// The name of the file that marks a directory as the root.
pub fn marker_file_name() -> (name: &'static str)
    ensures
        name@ == ".batlrc"@,
{
    ".batlrc"
}

/// The name of the environment variable that names the root.
pub fn root_variable() -> (name: &'static str)
    ensures
        name@ == "BATL_ROOT"@,
{
    "BATL_ROOT"
}

/// The directory below a home directory that is the root where nothing
/// else says so.
pub fn home_root(home: &FsPath) -> (root: FsPath)
    ensures
        root@ == home@.join("battalion"@),
{
    home.join("battalion")
}

/// A kind of resource that has a root of its own.
#[derive(Debug, Clone, Copy, PartialEq, Eq, Structural)]
pub enum ResourceKind {
    Workspace,
    Repository,
    Archive,
}

/// What is known of the surroundings when a root is asked for. The caller
/// looks; the answers are kept here and nowhere else, so that a change of
/// the surroundings is seen by the next look.
#[derive(Debug)]
pub struct System {
    /// What the environment variable names, if it is set.
    pub variable: Option<FsPath>,
    /// The nearest directory, from the working directory upward, that
    /// holds the marker file.
    pub marked: Option<FsPath>,
    /// The directory below the home directory, if it exists.
    pub home: Option<FsPath>,
}

/// The root: what the variable names, else the marked directory, else the
/// directory below home.
pub open spec fn root_of(
    variable: Option<PathModel>,
    marked: Option<PathModel>,
    home: Option<PathModel>,
) -> Option<PathModel> {
    match variable {
        Some(root) => Some(root),
        None => match marked {
            Some(root) => Some(root),
            None => home,
        },
    }
}

/// The directory `name` below a root, where there is a root.
pub open spec fn below(root: Option<PathModel>, name: Seq<char>) -> Option<PathModel> {
    match root {
        Some(root) => Some(root.join(name)),
        None => None,
    }
}

/// The directory `name` below a root, where there is a root.
fn directory_below(root: Option<&FsPath>, name: &str) -> (directory: Option<FsPath>)
    ensures
        directory.deep_view() == below(root.deep_view(), name@),
{
    match root {
        Some(root) => Some(root.join(name)),
        None => None,
    }
}

/// Get the battalion workspace root.
pub fn workspace_root(batl_root: Option<&FsPath>) -> (root: Option<FsPath>)
    ensures
        root.deep_view() == below(batl_root.deep_view(), "workspaces"@),
{
    directory_below(batl_root, "workspaces")
}

/// Get the battalion repository root.
pub fn repository_root(batl_root: Option<&FsPath>) -> (root: Option<FsPath>)
    ensures
        root.deep_view() == below(batl_root.deep_view(), "repositories"@),
{
    directory_below(batl_root, "repositories")
}

/// Get the battalion generator root.
pub fn gen_root(batl_root: Option<&FsPath>) -> (root: Option<FsPath>)
    ensures
        root.deep_view() == below(batl_root.deep_view(), "gen"@),
{
    directory_below(batl_root, "gen")
}

/// Get the battalion archive root.
pub fn archive_root(batl_root: Option<&FsPath>) -> (root: Option<FsPath>)
    ensures
        root.deep_view() == below(below(batl_root.deep_view(), "gen"@), "archives"@),
{
    let generated = gen_root(batl_root);
    directory_below(generated.as_ref(), "archives")
}

/// Get the battalion batlrc path.
pub fn batlrc_path(batl_root: Option<&FsPath>) -> (path: Option<FsPath>)
    ensures
        path.deep_view() == below(batl_root.deep_view(), ".batlrc"@),
{
    directory_below(batl_root, ".batlrc")
}

impl System {
    /// The root, as a value of mathematics.
    pub open spec fn root(&self) -> Option<PathModel> {
        root_of(self.variable.deep_view(), self.marked.deep_view(), self.home.deep_view())
    }

    /// The root of a kind of resource, as a value of mathematics.
    pub open spec fn root_for(&self, kind: ResourceKind) -> Option<PathModel> {
        match kind {
            ResourceKind::Workspace => below(self.root(), "workspaces"@),
            ResourceKind::Repository => below(self.root(), "repositories"@),
            ResourceKind::Archive => below(below(self.root(), "gen"@), "archives"@),
        }
    }

    /// Get the battalion root path: what the variable names, else the
    /// marked directory, else the directory below home. There is none
    /// where Battalion has not been set up.
    pub fn batl_root(&self) -> (root: Option<&FsPath>)
        ensures
            root.deep_view() == self.root(),
    {
        match &self.variable {
            Some(root) => Some(root),
            None => match &self.marked {
                Some(root) => Some(root),
                None => self.home.as_ref(),
            },
        }
    }

    /// Get the battalion workspace root.
    pub fn workspace_root(&self) -> (root: Option<FsPath>)
        ensures
            root.deep_view() == below(self.root(), "workspaces"@),
    {
        workspace_root(self.batl_root())
    }

    /// Get the battalion repository root.
    pub fn repository_root(&self) -> (root: Option<FsPath>)
        ensures
            root.deep_view() == below(self.root(), "repositories"@),
    {
        repository_root(self.batl_root())
    }

    /// Get the battalion generator root.
    pub fn gen_root(&self) -> (root: Option<FsPath>)
        ensures
            root.deep_view() == below(self.root(), "gen"@),
    {
        gen_root(self.batl_root())
    }

    /// Get the battalion archive root.
    pub fn archive_root(&self) -> (root: Option<FsPath>)
        ensures
            root.deep_view() == below(below(self.root(), "gen"@), "archives"@),
    {
        archive_root(self.batl_root())
    }

    /// Get the battalion batlrc path.
    pub fn batlrc_path(&self) -> (path: Option<FsPath>)
        ensures
            path.deep_view() == below(self.root(), ".batlrc"@),
    {
        batlrc_path(self.batl_root())
    }

    /// Where the resource of the given kind and name lies: the name's
    /// path below the root of the kind.
    pub fn resource_path(&self, kind: ResourceKind, name: &Name) -> (path: Option<FsPath>)
        ensures
            path.deep_view() == match self.root_for(kind) {
                Some(root) => Some(
                    PathModel {
                        anchor: root.anchor,
                        components: root.components + encode_path(name@),
                    },
                ),
                None => None,
            },
    {
        let root = match kind {
            ResourceKind::Workspace => self.workspace_root(),
            ResourceKind::Repository => self.repository_root(),
            ResourceKind::Archive => self.archive_root(),
        };
        match root {
            Some(root) => Some(root.join_path(&name.to_path())),
            None => None,
        }
    }

    /// Where the archive of the repository called `name` lies.
    pub fn archive_path(&self, name: &Name) -> (path: Option<FsPath>)
        ensures
            path.deep_view() == below(
                below(self.root_for(ResourceKind::Archive), "repositories"@),
                join(name@, '/') + ".tar"@,
            ),
    {
        let file = name.to_string().concat(".tar");
        match self.archive_root() {
            Some(root) => Some(root.join("repositories").join(file.as_str())),
            None => None,
        }
    }
}

} // verus!
