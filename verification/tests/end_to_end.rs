use batl::error::{CreateResourceError, DeleteResourceError, GeneralResourceError, IoError, IoErrorKind};
use batl::locate::Request;
use batl::path::FsPath;
use batl::resource::batlrc::BatlRc;
use batl::resource::repository::{self, CreateRepositoryOptions, Repository};
use batl::resource::restrict::{Condition, Requirement};
use batl::resource::tomlconfig::RepositoryGit0_2_0;
use batl::resource::workspace::{self, Workspace};
use batl::resource::Name;
use batl::system::{ResourceKind, System};
use batl::version::SemVer;

fn absolute(components: &[&str]) -> FsPath {
    FsPath::new("/".to_string(), components.iter().map(|c| c.to_string()).collect())
}

fn read_from(disk: &[(FsPath, String)], file: &FsPath) -> Result<String, IoError> {
    match disk.iter().find(|(at, _)| at == file) {
        Some((_, text)) => Ok(text.clone()),
        None => Err(IoError { kind: IoErrorKind::NotFound, message: "no such file".to_string() }),
    }
}

fn load_from(disk: &[(FsPath, String)], start: &FsPath) -> Option<(FsPath, repository::TomlConfigLatest)> {
    let mut loading = repository::Loading::start(start);
    for _ in 0..100 {
        loading = match loading.request() {
            Request::Exists(file) => loading.probed(disk.iter().any(|(at, _)| at == &file)),
            Request::Read(file) => loading.contents(read_from(disk, &file)),
            Request::Done(_) => return loading.loaded(),
        };
    }
    panic!("the search does not end");
}

#[test]
fn repository_is_created_written_and_loaded_from_below() {
    let system = System { variable: Some(absolute(&["root"])), marked: None, home: None };
    let name = Name::parse("infra/tools");
    let root = system.repository_root();
    let created = Repository::create(
        root.as_ref(),
        name.clone(),
        CreateRepositoryOptions::default(),
        Condition::Unix,
        false,
    )
    .unwrap();
    assert_eq!(created.path().to_string(), "/root/repositories/@infra/tools");
    assert_eq!(
        Some(created.path().clone()),
        system.resource_path(ResourceKind::Repository, &name)
    );
    assert_eq!(created.name(), &name);
    assert_eq!(created.config().version, SemVer::new(0, 1, 0));
    let command = "echo \"No build targets\" && exit 1".to_string();
    assert_eq!(created.scripts(), &vec![("build".to_string(), command.clone())]);
    assert_eq!(created.script("build"), Some(command.clone()));
    assert_eq!(created.script("test"), None);
    assert_eq!(created.config().restrict.len(), 1);
    assert_eq!(created.config().restrict[0].0, Condition::Unix);
    assert_eq!(created.config().restrict[0].1.inclusion, Requirement::Require);

    let file = created.path().join("batl.toml");
    let disk = vec![(file, created.to_toml())];
    let start = created.path().join("src");
    let (dir, record) = load_from(&disk, &start).unwrap();
    assert_eq!(&dir, created.path());
    assert_eq!(record.repository.name, name);
    assert_eq!(record.repository.version, SemVer::new(0, 1, 0));
    assert_eq!(record.scripts, Some(vec![("build".to_string(), command)]));
    assert_eq!(record.repository.git, None);
    assert_eq!(record.dependencies, None);

    let loaded = Repository::from_path(created.path().clone(), record);
    assert_eq!(loaded.name(), &name);
    assert_eq!(loaded.path(), created.path());
}

#[test]
fn creation_is_refused_without_a_root_or_on_a_taken_place() {
    let name = Name::parse("infra/tools");
    let root = absolute(&["root", "repositories"]);
    assert_eq!(
        Repository::create(
            None,
            name.clone(),
            CreateRepositoryOptions::default(),
            Condition::Unix,
            false
        )
        .unwrap_err(),
        CreateResourceError::NotSetup
    );
    assert_eq!(
        Repository::create(
            Some(&root),
            name.clone(),
            CreateRepositoryOptions::default(),
            Condition::Windows,
            true
        )
        .unwrap_err(),
        CreateResourceError::AlreadyExists
    );
    assert_eq!(Workspace::create(None, name.clone()).unwrap_err(), CreateResourceError::NotSetup);
    let git = RepositoryGit0_2_0 { url: "https://example.org/x.git".to_string(), path: "git".to_string() };
    let cloned = Repository::create(
        Some(&root),
        name,
        CreateRepositoryOptions::git(git),
        Condition::Windows,
        false,
    )
    .unwrap();
    assert_eq!(cloned.config().git.as_ref().unwrap().url, "https://example.org/x.git");
    assert_eq!(cloned.config().restrict[0].0, Condition::Windows);
    assert!(cloned.to_toml().contains("[restrict.Windows]"));
}

#[test]
fn resources_are_loaded_from_what_was_read() {
    let path = absolute(&["root", "repositories", "@infra", "tools"]);
    let name = Name::parse("infra/tools");
    let missing = IoError { kind: IoErrorKind::NotFound, message: "gone".to_string() };
    assert_eq!(
        Repository::load(path.clone(), Err(missing.clone()), name.clone()).unwrap_err(),
        GeneralResourceError::DoesNotExist
    );
    assert_eq!(
        Repository::load(path.clone(), Ok("= nonsense".to_string()), name.clone()).unwrap_err(),
        GeneralResourceError::Invalid
    );
    assert_eq!(
        Workspace::load(path.clone(), Err(missing), name.clone()).unwrap_err(),
        GeneralResourceError::DoesNotExist
    );
    let text = "[environment]\nversion = \"0.2.1\"\n[repository]\nname = \"infra/tools\"\nversion = \"3.0.0\"\nbuild = \"make\"\n";
    let loaded = Repository::load(path.clone(), Ok(text.to_string()), name.clone()).unwrap();
    assert_eq!(loaded.config().version, SemVer::new(3, 0, 0));
    assert!(loaded.scripts().is_empty());
    assert_eq!(loaded.path(), &path);
}

#[test]
fn workspace_links_are_made_and_unmade() {
    let root = absolute(&["root", "workspaces"]);
    let mut workspace = Workspace::create(Some(&root), Name::parse("team/space")).unwrap();
    assert_eq!(workspace.path().to_string(), "/root/workspaces/@team/space");
    assert!(workspace.links().is_empty());
    assert_eq!(workspace.link("lib"), None);
    let lib = Name::parse("team/lib");
    assert_eq!(workspace.create_link("lib", &lib), Ok(()));
    assert_eq!(workspace.create_link("tool", &Name::parse("infra/tools")), Ok(()));
    assert_eq!(workspace.link("lib"), Some(&lib));
    assert_eq!(
        workspace.create_link("lib", &Name::parse("other/lib")),
        Err(CreateResourceError::AlreadyExists)
    );
    assert_eq!(workspace.link("lib"), Some(&lib));
    let written = workspace.to_toml();
    let record = workspace::read(Ok(written)).unwrap();
    assert_eq!(
        record.links,
        Some(vec![
            ("lib".to_string(), lib.clone()),
            ("tool".to_string(), Name::parse("infra/tools")),
        ])
    );
    assert_eq!(record.scripts, None);
    assert_eq!(workspace.unlink("lib"), Ok(()));
    assert_eq!(workspace.link("lib"), None);
    assert_eq!(workspace.links().len(), 1);
    assert_eq!(workspace.unlink("lib"), Err(DeleteResourceError::DoesNotExist));
    assert_eq!(workspace.unlink("tool"), Ok(()));
    assert!(!workspace.to_toml().contains("links"));
    let again = Workspace::from_path(workspace.path().clone(), workspace.config().to_record());
    assert_eq!(again.name(), &Name::parse("team/space"));
}

#[test]
fn batlrc_is_written_and_read() {
    let fresh = BatlRc::default();
    assert_eq!(fresh.api.credentials, "YOUR-KEY-GOES-HERE");
    let written = fresh.to_toml();
    assert_eq!(written, "[api]\ncredentials = \"YOUR-KEY-GOES-HERE\"\n");
    let mut read = BatlRc::read_toml(&written).unwrap();
    assert_eq!(read, fresh);
    read.api.credentials = "k".to_string();
    assert_eq!(BatlRc::read_toml(&read.to_toml()), Some(read));
    assert_eq!(BatlRc::read_toml("[api]\n"), None);
    assert_eq!(BatlRc::read_toml("[api]\ncredentials = 3\n"), None);
    assert_eq!(BatlRc::read_toml("api ="), None);
}

#[test]
fn load_passes_over_what_is_no_record() {
    let valid = "[environment]\nversion = \"0.2.0\"\n[repository]\nname = \"a/b\"\nversion = \"1.0.0\"\n";
    let disk = vec![
        (absolute(&["a", "b", "c", "batl.toml"]), "broken = [".to_string()),
        (absolute(&["a", "b", "batl.toml"]), "[environment]\nversion = \"0.2.2\"\n".to_string()),
        (absolute(&["a", "batl.toml"]), valid.to_string()),
        (absolute(&["batl.toml"]), valid.replace("a/b", "x/y")),
    ];
    let (dir, record) = load_from(&disk, &absolute(&["a", "b", "c", "d"])).unwrap();
    assert_eq!(dir, absolute(&["a"]));
    assert_eq!(record.repository.name, Name::parse("a/b"));
    assert_eq!(record.repository.version, SemVer::new(1, 0, 0));
    assert_eq!(load_from(&disk[..2], &absolute(&["a", "b", "c"])), None);

    let mut loading = workspace::Loading::start(&absolute(&["w"]));
    assert!(matches!(loading.request(), Request::Exists(_)));
    assert_eq!(loading.located(), None);
    loading = loading.contents(Ok(valid.to_string()));
    assert!(matches!(loading.request(), Request::Exists(_)));
    loading = loading.probed(true);
    assert!(matches!(loading.request(), Request::Read(_)));
    // Under the latest schema a workspace is described under `workspace`.
    loading = loading.contents(Ok(valid.replace("0.2.0", "0.2.2")));
    assert!(matches!(loading.request(), Request::Exists(_)));
    loading = loading.probed(true);
    let text = "[environment]\nversion = \"0.2.2\"\n[workspace]\nname = \"w/s\"\nversion = \"1.0.0\"\n";
    loading = loading.contents(Ok(text.to_string()));
    assert_eq!(loading.located(), Some(absolute(&["batl.toml"])));
    let (dir, record) = loading.loaded().unwrap();
    assert_eq!(dir, absolute(&[]));
    assert_eq!(record.workspace.name, Name::parse("w/s"));
    assert_eq!(repository::Loading::file_name(), "batl.toml");
}
