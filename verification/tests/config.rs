use batl::document::{parse_document, render_document, Node};
use batl::error::{GeneralResourceError, IoError, IoErrorKind, ReadConfigError};
use batl::resource::repository;
use batl::resource::restrict::{Condition, Requirement, Settings};
use batl::resource::tomlconfig::{
    hashmap_to_option_hashmap, RepositoryGit0_2_0, RestrictRequirement0_2_2, Restrictor0_2_2,
    RestrictorSettings0_2_2, Schema,
};
use batl::resource::workspace;
use batl::resource::Name;
use batl::version::{SemVer, Version0_2_0, Version0_2_1, Version0_2_2};

fn text(s: &str) -> String {
    s.to_string()
}

const WORKSPACE_0_2_2: &str = r#"
[environment]
version = "0.2.2"

[workspace]
name = "team/space"
version = "1.2.3"

[links]
lib = "team/lib"

[scripts]
build = "make"
"#;

const WORKSPACE_0_2_1: &str = r#"
[environment]
version = "0.2.1"

[repository]
name = "team/space"
version = "1.2.3"
build = "make all"

[workspace]
lib = "team/lib"
tool = "infra/tools"

[scripts]
build = "make"

[dependencies]
"team/dep" = "latest"
"#;

const WORKSPACE_0_2_0: &str = r#"
[environment]
version = "0.2.0"

[repository]
name = "team/space"
version = "0.0.1"

[scripts]
build = "make"
"#;

const REPOSITORY_0_2_2: &str = r#"
[environment]
version = "0.2.2"

[repository]
name = "infra/tools"
version = "0.1.0"

[repository.git]
url = "https://example.org/tools.git"
path = "git"

[scripts]
build = "make"

[restrict.Linux]
include = "require"

[restrict.Windows]
include = "deny"

[restrict.Windows.dependencies]
"team/compat" = "1"
"#;

const REPOSITORY_0_2_0: &str = r#"
[environment]
version = "0.2.0"

[repository]
name = "infra/tools"
version = "0.1.0"
build = "make"

[scripts]
build = "make"
"#;

#[test]
fn version_markers_stand_for_one_text() {
    assert_eq!(Version0_2_2.as_str(), "0.2.2");
    assert_eq!(Version0_2_1.as_str(), "0.2.1");
    assert_eq!(Version0_2_0.as_str(), "0.2.0");
    assert!(Version0_2_2::parse("0.2.2").is_some());
    assert!(Version0_2_2::parse("0.2.1").is_none());
    assert!(Version0_2_1::parse("0.2.1").is_some());
    assert!(Version0_2_1::parse("0.2.10").is_none());
    assert!(Version0_2_0::parse("0.2.0").is_some());
    assert!(Version0_2_0::parse("").is_none());
}

#[test]
fn semantic_versions_are_parsed_and_written() {
    let version = SemVer::parse("1.2.3-rc.1+linux").unwrap();
    assert_eq!(version.major, 1);
    assert_eq!(version.minor, 2);
    assert_eq!(version.patch, 3);
    assert_eq!(version.pre, "rc.1");
    assert_eq!(version.build, "linux");
    assert_eq!(version.to_string(), Some(text("1.2.3-rc.1+linux")));
    assert_eq!(SemVer::new(0, 1, 0).to_string(), Some(text("0.1.0")));
    assert_eq!(SemVer::parse("0.1.0"), Some(SemVer::new(0, 1, 0)));
    assert!(SemVer::parse("1.2").is_none());
    assert!(SemVer::parse("01.2.3").is_none());
    let odd = SemVer { major: 1, minor: 0, patch: 0, pre: text("not valid!"), build: text("") };
    assert_eq!(odd.to_string(), None);
}

#[test]
fn documents_are_parsed_into_nodes() {
    let doc = parse_document("a = 1\nb = \"two\"\n[t]\nflag = true\nlist = [1, 2]\n").unwrap();
    assert_eq!(doc.get("a"), Some(&Node::Integer(1)));
    assert_eq!(doc.get("b"), Some(&Node::Text(text("two"))));
    let table = doc.get("t").unwrap();
    assert_eq!(table.get("flag"), Some(&Node::Boolean(true)));
    assert_eq!(table.get("list"), Some(&Node::List(vec![Node::Integer(1), Node::Integer(2)])));
    assert_eq!(doc.get("missing"), None);
    assert_eq!(doc.get("a").unwrap().get("x"), None);
    assert!(parse_document("a = ").is_err());
    assert!(parse_document("a = 1\na = 2").is_err());
}

#[test]
fn documents_are_rendered_as_toml() {
    let doc = Node::Table(vec![
        (text("name"), Node::Text(text("lib"))),
        (text("count"), Node::Integer(3)),
    ]);
    let rendered = render_document(&doc).unwrap();
    assert_eq!(rendered, "count = 3\nname = \"lib\"\n");
    let bad = Node::Table(vec![(text("when"), Node::Moment(text("not a date")))]);
    assert_eq!(render_document(&bad), None);
}

#[test]
fn workspace_of_latest_schema_is_read() {
    let any = workspace::AnyTomlConfig::read_toml(WORKSPACE_0_2_2).unwrap();
    assert_eq!(any.schema(), Schema::V0_2_2);
    let record = any.upgrade();
    assert_eq!(record.workspace.name, Name::parse("team/space"));
    assert_eq!(record.workspace.version, SemVer::new(1, 2, 3));
    assert_eq!(record.links, Some(vec![(text("lib"), Name::parse("team/lib"))]));
    assert_eq!(record.scripts, Some(vec![(text("build"), text("make"))]));
    assert_eq!(record.dependencies, None);
}

#[test]
fn workspace_of_earlier_schema_is_upgraded() {
    let any = workspace::AnyTomlConfig::read_toml(WORKSPACE_0_2_1).unwrap();
    assert_eq!(any.schema(), Schema::V0_2_1);
    let record = any.upgrade();
    assert_eq!(record.workspace.name, Name::parse("team/space"));
    assert_eq!(record.workspace.version, SemVer::new(1, 2, 3));
    assert_eq!(
        record.links,
        Some(vec![
            (text("lib"), Name::parse("team/lib")),
            (text("tool"), Name::parse("infra/tools")),
        ])
    );
    assert_eq!(record.scripts, Some(vec![(text("build"), text("make"))]));
    assert_eq!(record.dependencies, Some(vec![(Name::parse("team/dep"), text("latest"))]));

    let oldest = workspace::AnyTomlConfig::read_toml(WORKSPACE_0_2_0).unwrap();
    assert_eq!(oldest.schema(), Schema::V0_2_0);
    let record = oldest.upgrade();
    assert_eq!(record.workspace.version, SemVer::new(0, 0, 1));
    assert_eq!(record.links, None);
    assert_eq!(record.scripts, Some(vec![(text("build"), text("make"))]));
}

#[test]
fn upgrade_preserves_scripts() {
    let any = repository::AnyTomlConfig::read_toml(REPOSITORY_0_2_0).unwrap();
    assert_eq!(any.schema(), Schema::V0_2_0);
    let record = any.upgrade();
    assert_eq!(record.scripts, Some(vec![(text("build"), text("make"))]));
    assert_eq!(record.repository.name, Name::parse("infra/tools"));
    assert!(record.restrict.is_none());
    assert_eq!(record.dependencies, None);
}

#[test]
fn upgrade_of_latest_is_identity() {
    let record = repository::AnyTomlConfig::read_toml(REPOSITORY_0_2_2).unwrap().upgrade();
    let text_before = record.to_toml();
    let again = repository::AnyTomlConfig::V0_2_2(record).upgrade();
    assert_eq!(again.to_toml(), text_before);
    assert_eq!(again.repository.name, Name::parse("infra/tools"));
    let git = again.repository.git.as_ref().unwrap();
    assert_eq!(git.url, "https://example.org/tools.git");
    assert_eq!(git.path, "git");
}

#[test]
fn repository_restrictions_are_read() {
    let record = repository::AnyTomlConfig::read_toml(REPOSITORY_0_2_2).unwrap().upgrade();
    let restrict = record.restrict.as_ref().unwrap();
    assert_eq!(restrict.len(), 2);
    assert_eq!(restrict[0].0, Restrictor0_2_2::Linux);
    assert_eq!(restrict[0].1.inclusion, Some(RestrictRequirement0_2_2::Require));
    assert_eq!(restrict[0].1.dependencies, None);
    assert_eq!(restrict[1].0, Restrictor0_2_2::Windows);
    assert_eq!(restrict[1].1.inclusion, Some(RestrictRequirement0_2_2::Deny));
    assert_eq!(
        restrict[1].1.dependencies,
        Some(vec![(Name::parse("team/compat"), text("1"))])
    );
    let config = repository::Config::from_record(record);
    assert_eq!(config.restrict[0].0, Condition::Linux);
    assert_eq!(config.restrict[0].1.inclusion, Requirement::Require);
    assert!(config.restrict[0].1.dependencies.is_empty());
    assert_eq!(config.restrict[1].0, Condition::Windows);
    assert_eq!(config.restrict[1].1.inclusion, Requirement::Deny);
    assert!(config.dependencies.is_empty());
    assert_eq!(config.git.as_ref().unwrap().path, "git");
}

#[test]
fn newest_schema_that_fits_is_chosen() {
    // The shapes of 0.2.1 and 0.2.0 are the same; the marker decides.
    let as_0_2_1 = WORKSPACE_0_2_0.replace("0.2.0", "0.2.1");
    let any = workspace::AnyTomlConfig::read_toml(&as_0_2_1).unwrap();
    assert_eq!(any.schema(), Schema::V0_2_1);
    // A document of the latest schema that also has the sections of an
    // earlier one is read under the latest.
    let both = format!("{}\n[repository]\nname = \"x/y\"\nversion = \"9.9.9\"\n", WORKSPACE_0_2_2);
    let any = workspace::AnyTomlConfig::read_toml(&both).unwrap();
    assert_eq!(any.schema(), Schema::V0_2_2);
    assert_eq!(any.upgrade().workspace.name, Name::parse("team/space"));
}

#[test]
fn document_that_fits_no_schema_is_invalid() {
    let unknown = WORKSPACE_0_2_2.replace("0.2.2", "0.3.0");
    assert!(matches!(
        workspace::AnyTomlConfig::read_toml(&unknown),
        Err(ReadConfigError::TomlError(_))
    ));
    assert!(matches!(
        workspace::AnyTomlConfig::read_toml("not toml at all ="),
        Err(ReadConfigError::TomlError(_))
    ));
    // A workspace's file is no repository's: there is no repository section.
    assert!(matches!(
        repository::AnyTomlConfig::read_toml(WORKSPACE_0_2_2),
        Err(ReadConfigError::TomlError(_))
    ));
    // A map with a value of the wrong type does not fit.
    let wrong = format!("{}\n[dependencies]\n\"a/b\" = 3\n", WORKSPACE_0_2_2);
    assert!(workspace::AnyTomlConfig::read_toml(&wrong).is_err());
    // A bad version does not fit.
    let bad_version = WORKSPACE_0_2_2.replace("1.2.3", "1.2");
    assert!(workspace::AnyTomlConfig::read_toml(&bad_version).is_err());
    // An unknown condition does not fit.
    let bad_condition = REPOSITORY_0_2_2.replace("restrict.Linux", "restrict.Plan9");
    assert!(repository::AnyTomlConfig::read_toml(&bad_condition).is_err());
    let bad_requirement = REPOSITORY_0_2_2.replace("\"deny\"", "\"perhaps\"");
    assert!(repository::AnyTomlConfig::read_toml(&bad_requirement).is_err());
}

#[test]
fn read_tells_missing_from_invalid() {
    let missing = IoError { kind: IoErrorKind::NotFound, message: text("no such file") };
    let denied = IoError { kind: IoErrorKind::PermissionDenied, message: text("denied") };
    assert_eq!(
        repository::read(Err(missing.clone())).unwrap_err(),
        ReadConfigError::IoError(missing.clone())
    );
    assert_eq!(
        GeneralResourceError::from(ReadConfigError::IoError(missing)),
        GeneralResourceError::DoesNotExist
    );
    assert_eq!(
        GeneralResourceError::from(ReadConfigError::IoError(denied.clone())),
        GeneralResourceError::IoError(denied)
    );
    let invalid = repository::read(Ok(text("nonsense ="))).unwrap_err();
    assert_eq!(GeneralResourceError::from(invalid), GeneralResourceError::Invalid);
    let record = repository::read(Ok(text(REPOSITORY_0_2_0))).unwrap();
    assert_eq!(record.repository.name, Name::parse("infra/tools"));
    let record = workspace::read(Ok(text(WORKSPACE_0_2_1))).unwrap();
    assert_eq!(record.workspace.name, Name::parse("team/space"));
}

#[test]
fn empty_maps_are_omitted() {
    let config = repository::Config {
        name: Name::parse("infra/tools"),
        version: SemVer::new(0, 1, 0),
        git: None,
        scripts: vec![(text("build"), text("make"))],
        dependencies: vec![],
        restrict: vec![],
    };
    let written = config.to_toml();
    assert!(!written.contains("dependencies"));
    assert!(!written.contains("restrict"));
    assert!(written.contains("[scripts]"));
    let record = config.into_record();
    assert_eq!(record.dependencies, None);
    assert!(record.restrict.is_none());
    assert!(record.scripts.is_some());
    // A record that holds an empty map writes no key either.
    let mut record = record;
    record.dependencies = Some(vec![]);
    assert!(!record.to_toml().contains("dependencies"));
    // What is not written is read as empty.
    let read = repository::read(Ok(written)).unwrap();
    assert_eq!(read.dependencies, None);
    let config = repository::Config::from_record(read);
    assert!(config.dependencies.is_empty());
    assert!(config.restrict.is_empty());
    assert_eq!(config.scripts, vec![(text("build"), text("make"))]);
}

#[test]
fn hashmap_to_option_hashmap_drops_empty() {
    assert_eq!(hashmap_to_option_hashmap(Vec::<(String, String)>::new()), None);
    assert_eq!(
        hashmap_to_option_hashmap(vec![(text("a"), text("b"))]),
        Some(vec![(text("a"), text("b"))])
    );
}

#[test]
fn records_are_read_back_from_their_text() {
    let config = repository::Config {
        name: Name::parse("infra/tools"),
        version: SemVer::parse("2.0.1-beta").unwrap(),
        git: Some(repository::GitConfig { url: text("ssh://host/repo"), path: text("src") }),
        scripts: vec![(text("build"), text("make")), (text("test"), text("make check"))],
        dependencies: vec![(Name::parse("team/lib"), text("latest"))],
        restrict: vec![(
            Condition::MacOs,
            Settings {
                inclusion: Requirement::Deny,
                dependencies: vec![(Name::parse("team/other"), text("2"))],
            },
        )],
    };
    let written = config.to_toml();
    let any = repository::AnyTomlConfig::read_toml(&written).unwrap();
    assert_eq!(any.schema(), Schema::V0_2_2);
    let back = repository::Config::from_record(any.upgrade());
    assert_eq!(back.name, config.name);
    assert_eq!(back.version, config.version);
    assert_eq!(back.git.as_ref().unwrap().url, "ssh://host/repo");
    assert_eq!(back.git.as_ref().unwrap().path, "src");
    assert_eq!(back.scripts, config.scripts);
    assert_eq!(back.dependencies, config.dependencies);
    assert_eq!(back.restrict.len(), 1);
    assert_eq!(back.restrict[0].0, Condition::MacOs);
    assert_eq!(back.restrict[0].1.inclusion, Requirement::Deny);
    assert_eq!(back.restrict[0].1.dependencies, config.restrict[0].1.dependencies);
}

#[test]
fn settings_leave_out_what_is_the_default() {
    let allow = Settings { inclusion: Requirement::Allow, dependencies: vec![] };
    let record = allow.into_record();
    assert_eq!(record.inclusion, None);
    assert_eq!(record.dependencies, None);
    let back = Settings::from_record(record);
    assert_eq!(back.inclusion, Requirement::Allow);
    assert!(back.dependencies.is_empty());
    let require = Settings::from_record(RestrictorSettings0_2_2 {
        inclusion: Some(RestrictRequirement0_2_2::Require),
        dependencies: None,
    });
    assert_eq!(require.inclusion, Requirement::Require);
    assert_eq!(Restrictor0_2_2::from(Condition::Unix), Restrictor0_2_2::Unix);
    assert_eq!(Condition::from(Restrictor0_2_2::MacOs), Condition::MacOs);
    assert_eq!(
        RestrictRequirement0_2_2::from(Requirement::Deny),
        RestrictRequirement0_2_2::Deny
    );
    assert_eq!(Requirement::from(RestrictRequirement0_2_2::Allow), Requirement::Allow);
    assert_eq!(Restrictor0_2_2::parse("Unix"), Some(Restrictor0_2_2::Unix));
    assert_eq!(Restrictor0_2_2::parse("unix"), None);
    assert_eq!(Restrictor0_2_2::MacOs.as_str(), "MacOs");
    assert_eq!(RestrictRequirement0_2_2::parse("require"), Some(RestrictRequirement0_2_2::Require));
    assert_eq!(RestrictRequirement0_2_2::Deny.as_str(), "deny");
}

#[test]
fn git_section_needs_both_fields() {
    let git = RepositoryGit0_2_0 { url: text("u"), path: text("p") };
    assert_eq!(git.url, "u");
    let half = REPOSITORY_0_2_2.replace("path = \"git\"\n", "");
    assert!(repository::AnyTomlConfig::read_toml(&half).is_err());
}
