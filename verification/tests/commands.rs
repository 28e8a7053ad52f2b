use batl::commands::{
    classify, cmd_add, cmd_remove, is_listed, is_valid_link_name, is_valid_name, starts_with,
    Listing, UtilityError,
};
use batl::error::{
    CreateDependentResourceError, CreateResourceError, DeleteResourceError,
    GeneralResourceError, IoError, IoErrorKind, ReadConfigError,
};
use batl::document::ParseError;
use batl::resource::repository::{CreateRepositoryOptions, Repository, TomlConfigLatest};
use batl::resource::restrict::Condition;
use batl::resource::Name;

fn record() -> TomlConfigLatest {
    Repository::initial_record(
        Name::parse("infra/tools"),
        CreateRepositoryOptions::default(),
        Condition::Unix,
    )
}

#[test]
fn names_are_held_to_their_grammar() {
    assert!(is_valid_name("team/project"));
    assert!(is_valid_name("team/project/lib-2_x"));
    assert!(!is_valid_name("lib"));
    assert!(!is_valid_name("Team/project"));
    assert!(!is_valid_name("team//project"));
    assert!(!is_valid_name("team/project/"));
    assert!(!is_valid_name("team/9lives"));
    assert!(!is_valid_name(""));
    assert!(is_valid_link_name("Lib_2-x"));
    assert!(!is_valid_link_name("2lib"));
    assert!(!is_valid_link_name("a/b"));
    assert!(!is_valid_link_name(""));
}

#[test]
fn dependencies_are_added_and_removed() {
    let mut config = record();
    assert_eq!(config.dependencies, None);
    cmd_add(&mut config, "team/lib");
    assert_eq!(
        config.dependencies,
        Some(vec![(Name::parse("team/lib"), "latest".to_string())])
    );
    cmd_add(&mut config, "team/other");
    config.dependencies.as_mut().unwrap()[0].1 = "1.0".to_string();
    cmd_add(&mut config, "team/lib");
    assert_eq!(
        config.dependencies,
        Some(vec![
            (Name::parse("team/lib"), "latest".to_string()),
            (Name::parse("team/other"), "latest".to_string()),
        ])
    );
    assert_eq!(cmd_remove(&mut config, "team/lib"), Ok(()));
    assert_eq!(
        config.dependencies,
        Some(vec![(Name::parse("team/other"), "latest".to_string())])
    );
    assert_eq!(
        cmd_remove(&mut config, "team/lib"),
        Err(UtilityError::ResourceDoesNotExist("Dependency".to_string()))
    );
    assert_eq!(cmd_remove(&mut config, "team/other"), Ok(()));
    assert!(!config.to_toml().contains("dependencies"));
    let mut fresh = record();
    assert_eq!(
        cmd_remove(&mut fresh, "team/lib"),
        Err(UtilityError::ResourceDoesNotExist("Dependency".to_string()))
    );
    assert_eq!(fresh, record());
}

#[test]
fn directories_are_namespaces_or_resources() {
    match classify("", "@team") {
        Listing::Namespace(prefix) => assert_eq!(prefix, "team/"),
        other => panic!("{:?}", other),
    }
    match classify("team/", "@project") {
        Listing::Namespace(prefix) => assert_eq!(prefix, "team/project/"),
        other => panic!("{:?}", other),
    }
    match classify("team/project/", "lib") {
        Listing::Resource(name) => assert_eq!(name, "team/project/lib"),
        other => panic!("{:?}", other),
    }
    match classify("", "") {
        Listing::Resource(name) => assert_eq!(name, ""),
        other => panic!("{:?}", other),
    }
    assert!(starts_with("team/lib", "team"));
    assert!(starts_with("team/lib", ""));
    assert!(!starts_with("team", "team/lib"));
    assert!(!starts_with("team/lib", "tean"));
    assert!(is_listed("team/lib", None));
    assert!(is_listed("team/lib", Some("team/")));
    assert!(!is_listed("team/lib", Some("infra")));
}

#[test]
fn errors_are_reported_by_their_cause() {
    let io = IoError { kind: IoErrorKind::Other, message: "broken".to_string() };
    assert_eq!(
        UtilityError::from_read(ReadConfigError::IoError(io.clone())),
        UtilityError::IoError(io.clone())
    );
    assert_eq!(
        UtilityError::from_read(ReadConfigError::TomlError(ParseError { message: "x".to_string() })),
        UtilityError::InvalidConfig
    );
    assert_eq!(
        UtilityError::from_general(GeneralResourceError::DoesNotExist),
        UtilityError::ResourceDoesNotExist("<>".to_string())
    );
    assert_eq!(UtilityError::from_general(GeneralResourceError::Invalid), UtilityError::InvalidConfig);
    assert_eq!(
        UtilityError::from_create(CreateResourceError::AlreadyExists),
        UtilityError::ResourceAlreadyExists("<>".to_string())
    );
    assert_eq!(
        UtilityError::from_create(CreateResourceError::NotSetup),
        UtilityError::ResourceDoesNotExist("Battalion root".to_string())
    );
    assert_eq!(
        UtilityError::from_delete(DeleteResourceError::DoesNotExist),
        UtilityError::ResourceDoesNotExist("<>".to_string())
    );
    assert_eq!(
        UtilityError::from_delete(DeleteResourceError::IoError(io.clone())),
        UtilityError::IoError(io.clone())
    );
    assert_eq!(
        UtilityError::from_dependent(CreateDependentResourceError::Creation(
            CreateResourceError::AlreadyExists
        )),
        UtilityError::ResourceAlreadyExists("<>".to_string())
    );
    assert_eq!(
        UtilityError::from_dependent(CreateDependentResourceError::Dependent(
            GeneralResourceError::Invalid
        )),
        UtilityError::InvalidConfig
    );
    assert_eq!(
        UtilityError::from_dependent(CreateDependentResourceError::IoError(io.clone())),
        UtilityError::IoError(io)
    );
}

#[test]
fn errors_say_what_went_wrong() {
    let io = IoError { kind: IoErrorKind::PermissionDenied, message: "denied".to_string() };
    assert_eq!(UtilityError::IoError(io.clone()).to_string(), "IO Error: denied");
    assert_eq!(
        UtilityError::ResourceDoesNotExist("Repository".to_string()).to_string(),
        "Resource does not exist: Repository"
    );
    assert_eq!(
        UtilityError::ResourceAlreadyExists("<>".to_string()).to_string(),
        "Resource already exists: <>"
    );
    assert_eq!(UtilityError::InvalidConfig.to_string(), "Invalid config");
    assert_eq!(UtilityError::LinkNotFound.to_string(), "Link not found");
    assert_eq!(UtilityError::InvalidName("x".to_string()).to_string(), "Invalid name: x");
    assert_eq!(UtilityError::AlreadySetup.to_string(), "Already setup");
    assert_eq!(UtilityError::ScriptNotFound("b".to_string()).to_string(), "Script not found: b");
    assert_eq!(UtilityError::ScriptError("Exit code 2".to_string()).to_string(), "Script error: Exit code 2");
    assert_eq!(
        UtilityError::ResourceNotCollected("Git remote".to_string()).to_string(),
        "Resource cannot be collected: Git remote"
    );
    assert_eq!(UtilityError::NetworkError("down".to_string()).to_string(), "Network Error: down");
    assert_eq!(UtilityError::Unknown.to_string(), "Unknown");
    assert_eq!(CreateResourceError::NotSetup.to_string(), "Battalion not set up");
    assert_eq!(CreateResourceError::AlreadyExists.to_string(), "Resource already exists");
    assert_eq!(CreateResourceError::IoError(io.clone()).to_string(), "IO Error: denied");
    assert_eq!(GeneralResourceError::DoesNotExist.to_string(), "Resource does not exist");
    assert_eq!(GeneralResourceError::Invalid.to_string(), "Resource invalid/corrupted");
    assert_eq!(GeneralResourceError::IoError(io.clone()).to_string(), "IO Error: denied");
    assert_eq!(DeleteResourceError::DoesNotExist.to_string(), "Resource does not exist");
    assert_eq!(DeleteResourceError::IoError(io.clone()).to_string(), "IO Error: denied");
    assert_eq!(
        CreateDependentResourceError::Creation(CreateResourceError::NotSetup).to_string(),
        "Error while creating resource: Battalion not set up"
    );
    assert_eq!(
        CreateDependentResourceError::Dependent(GeneralResourceError::Invalid).to_string(),
        "Error while getting dependents: Resource invalid/corrupted"
    );
    assert_eq!(CreateDependentResourceError::IoError(io.clone()).to_string(), "IO Error: denied");
    assert_eq!(ReadConfigError::IoError(io).to_string(), "denied");
    let parse = batl::document::parse_document("a = ").unwrap_err();
    assert!(!parse.message.is_empty());
    assert_eq!(ReadConfigError::TomlError(parse.clone()).to_string(), parse.message);
}
