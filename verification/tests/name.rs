use batl::path::FsPath;
use batl::resource::Name;

fn path_of(components: &[&str]) -> FsPath {
    FsPath::relative(components.iter().map(|c| c.to_string()).collect())
}

#[test]
fn name_encodes_namespaces_with_marks() {
    let name = Name::parse("team/project/lib");
    assert_eq!(name.to_path(), path_of(&["@team", "@project", "lib"]));
    assert_eq!(name.to_path().to_string(), "@team/@project/lib");
}

#[test]
fn name_round_trips_through_its_path() {
    let name = Name::parse("team/project/lib");
    let back = Name::from_path(&name.to_path());
    assert_eq!(back, name);
    assert_eq!(back.components(), &vec!["team".to_string(), "project".to_string(), "lib".to_string()]);
}

#[test]
fn single_segment_is_its_own_path() {
    let name = Name::parse("lib");
    assert_eq!(name.to_path().to_string(), "lib");
    assert_eq!(name.to_path(), path_of(&["lib"]));
    let back = Name::from_path(&path_of(&["lib"]));
    assert_eq!(back.components(), &vec!["lib".to_string()]);
}

#[test]
fn any_text_is_a_name() {
    assert_eq!(Name::parse("").components(), &vec!["".to_string()]);
    assert_eq!(
        Name::parse("a//b").components(),
        &vec!["a".to_string(), "".to_string(), "b".to_string()]
    );
    assert_eq!(Name::parse("/a/").components(), &vec!["".to_string(), "a".to_string(), "".to_string()]);
    assert_eq!(Name::parse("a//b").to_string(), "a//b");
    assert_eq!(Name::parse("team/project/lib").to_string(), "team/project/lib");
    assert_eq!(Name::parse(&Name::parse("x/y/z").to_string()), Name::parse("x/y/z"));
    assert_ne!(Name::parse("x/y"), Name::parse("x/z"));
    assert_ne!(Name::parse("x/y"), Name::parse("x/y/z"));
    assert_eq!(Name::parse("x/y").clone(), Name::parse("x/y"));
}

#[test]
fn decoding_passes_over_directories_that_are_no_namespaces() {
    let path = FsPath::new(
        "/".to_string(),
        vec!["home", "u", "battalion", "repositories", "@team", "@project", "lib"]
            .into_iter()
            .map(String::from)
            .collect(),
    );
    assert_eq!(Name::from_path(&path), Name::parse("team/project/lib"));
    // A marked leaf is a segment that is called so.
    assert_eq!(Name::from_path(&path_of(&["@a", "@b"])), Name::parse("a/@b"));
    assert_eq!(Name::from_path(&path_of(&["@", "x"])), Name::parse("/x"));
    assert_eq!(Name::from_path(&path_of(&[])), Name::parse(""));
    assert_eq!(Name::parse("a/@b").to_path(), path_of(&["@a", "@b"]));
    assert_eq!(Name::parse("@a/b").to_path(), path_of(&["@@a", "b"]));
    assert_eq!(Name::from_path(&path_of(&["@@a", "b"])), Name::parse("@a/b"));
}

#[test]
fn fit_names_are_told_from_unfit_ones() {
    assert!(Name::parse("team/project/lib").is_valid());
    assert!(Name::parse("lib").is_valid());
    assert!(!Name::parse("").is_valid());
    assert!(!Name::parse("a//b").is_valid());
    assert!(!Name::parse("a/b/").is_valid());
    assert!(!Name::parse("a/@b").is_valid());
    assert!(!Name::parse("a@/b").is_valid());
    assert!(!Name::from_path(&path_of(&["x/y"])).is_valid());
    assert!(Name::from_path(&path_of(&["@a", "b"])).is_valid());
}
