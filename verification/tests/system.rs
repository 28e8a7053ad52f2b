use batl::path::FsPath;
use batl::resource::Name;
use batl::system::{
    archive_root, batlrc_path, gen_root, home_root, marker_file_name, repository_root,
    root_variable, workspace_root, ResourceKind, System,
};

fn absolute(components: &[&str]) -> FsPath {
    FsPath::new("/".to_string(), components.iter().map(|c| c.to_string()).collect())
}

#[test]
fn roots_lie_below_the_battalion_root() {
    let root = absolute(&["home", "u", "battalion"]);
    assert_eq!(workspace_root(Some(&root)).unwrap().to_string(), "/home/u/battalion/workspaces");
    assert_eq!(
        repository_root(Some(&root)).unwrap().to_string(),
        "/home/u/battalion/repositories"
    );
    assert_eq!(gen_root(Some(&root)).unwrap().to_string(), "/home/u/battalion/gen");
    assert_eq!(archive_root(Some(&root)).unwrap().to_string(), "/home/u/battalion/gen/archives");
    assert_eq!(batlrc_path(Some(&root)).unwrap().to_string(), "/home/u/battalion/.batlrc");
    assert_eq!(workspace_root(None), None);
    assert_eq!(repository_root(None), None);
    assert_eq!(gen_root(None), None);
    assert_eq!(archive_root(None), None);
    assert_eq!(batlrc_path(None), None);
}

#[test]
fn first_root_that_is_known_wins() {
    let variable = absolute(&["var"]);
    let marked = absolute(&["marked"]);
    let home = home_root(&absolute(&["home", "u"]));
    assert_eq!(home.to_string(), "/home/u/battalion");
    let all = System {
        variable: Some(variable.clone()),
        marked: Some(marked.clone()),
        home: Some(home.clone()),
    };
    assert_eq!(all.batl_root(), Some(&variable));
    let no_variable = System { variable: None, marked: Some(marked.clone()), home: Some(home.clone()) };
    assert_eq!(no_variable.batl_root(), Some(&marked));
    let only_home = System { variable: None, marked: None, home: Some(home.clone()) };
    assert_eq!(only_home.batl_root(), Some(&home));
    let none = System { variable: None, marked: None, home: None };
    assert_eq!(none.batl_root(), None);
    assert_eq!(none.workspace_root(), None);
    assert_eq!(none.repository_root(), None);
    assert_eq!(none.gen_root(), None);
    assert_eq!(none.archive_root(), None);
    assert_eq!(none.batlrc_path(), None);
    assert_eq!(none.resource_path(ResourceKind::Repository, &Name::parse("a/b")), None);
    assert_eq!(marker_file_name(), ".batlrc");
    assert_eq!(root_variable(), "BATL_ROOT");
}

#[test]
fn resources_lie_below_the_root_of_their_kind() {
    let system = System { variable: Some(absolute(&["r"])), marked: None, home: None };
    let name = Name::parse("team/project/lib");
    assert_eq!(
        system.resource_path(ResourceKind::Repository, &name).unwrap().to_string(),
        "/r/repositories/@team/@project/lib"
    );
    assert_eq!(
        system.resource_path(ResourceKind::Workspace, &name).unwrap().to_string(),
        "/r/workspaces/@team/@project/lib"
    );
    assert_eq!(
        system.resource_path(ResourceKind::Archive, &Name::parse("lib")).unwrap().to_string(),
        "/r/gen/archives/lib"
    );
    assert_eq!(system.workspace_root().unwrap().to_string(), "/r/workspaces");
    assert_eq!(system.repository_root().unwrap().to_string(), "/r/repositories");
    assert_eq!(system.gen_root().unwrap().to_string(), "/r/gen");
    assert_eq!(system.archive_root().unwrap().to_string(), "/r/gen/archives");
    assert_eq!(system.batlrc_path().unwrap().to_string(), "/r/.batlrc");
    assert_eq!(
        system.archive_path(&name).unwrap().to_string(),
        "/r/gen/archives/repositories/team/project/lib.tar"
    );
}

#[test]
fn paths_join_and_ascend() {
    let path = absolute(&["a", "b"]);
    assert_eq!(path.join("c").to_string(), "/a/b/c");
    assert_eq!(path.parent(), Some(absolute(&["a"])));
    assert_eq!(absolute(&[]).parent(), None);
    assert_eq!(absolute(&[]).to_string(), "/");
    assert_eq!(path.file_name(), Some("b".to_string()));
    assert_eq!(absolute(&[]).file_name(), None);
    assert!(path.is_anchored());
    let relative = FsPath::relative(vec!["x".to_string(), "y".to_string()]);
    assert!(!relative.is_anchored());
    assert_eq!(path.join_path(&relative).to_string(), "/a/b/x/y");
    assert_eq!(relative.join_path(&path), path);
    let mut popped = path.clone();
    assert!(popped.pop());
    assert_eq!(popped, absolute(&["a"]));
    assert!(popped.pop());
    assert!(!popped.pop());
    assert_eq!(popped, absolute(&[]));
}
