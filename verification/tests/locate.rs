use batl::locate::{Answer, FileState, Request, Search};
use batl::path::FsPath;
use batl::resource::repository;

fn absolute(components: &[&str]) -> FsPath {
    FsPath::new("/".to_string(), components.iter().map(|c| c.to_string()).collect())
}

const VALID: &str = "[environment]\nversion = \"0.2.2\"\n\n[repository]\nname = \"a/b\"\nversion = \"0.1.0\"\n";

/// A disk that holds the given files, each with its text.
struct Disk {
    files: Vec<(FsPath, String)>,
    asked: Vec<String>,
}

impl Disk {
    fn text(&self, path: &FsPath) -> Option<&String> {
        self.files.iter().find(|(at, _)| at == path).map(|(_, text)| text)
    }

    fn run(&mut self, mut search: Search) -> Option<FsPath> {
        let mut steps = 0;
        loop {
            steps += 1;
            assert!(steps < 100, "the search does not end");
            let answer = match search.request() {
                Request::Exists(file) => {
                    self.asked.push(format!("exists {}", file.to_string()));
                    Answer::Exists(self.text(&file).is_some())
                }
                Request::Read(file) => {
                    self.asked.push(format!("read {}", file.to_string()));
                    let text = self.text(&file).cloned().unwrap_or_default();
                    Answer::Parsed(repository::read(Ok(text)).is_ok())
                }
                Request::Done(found) => {
                    assert!(search.is_done());
                    return found;
                }
            };
            assert!(!search.is_done());
            search = search.step(answer);
        }
    }
}

#[test]
fn locate_ascends_past_a_corrupt_file() {
    let mut disk = Disk {
        files: vec![
            (absolute(&["a", "b", "batl.toml"]), "this is = not [ toml".to_string()),
            (absolute(&["a", "batl.toml"]), VALID.to_string()),
        ],
        asked: vec![],
    };
    let found = disk.run(Search::locate(&absolute(&["a", "b"]), "batl.toml"));
    assert_eq!(found, Some(absolute(&["a"])));
    assert_eq!(found.unwrap().join("batl.toml").to_string(), "/a/batl.toml");
    assert_eq!(
        disk.asked,
        vec![
            "exists /a/b/batl.toml".to_string(),
            "read /a/b/batl.toml".to_string(),
            "exists /a/batl.toml".to_string(),
            "read /a/batl.toml".to_string(),
        ]
    );
}

#[test]
fn locate_possible_stops_at_any_file() {
    let mut disk = Disk {
        files: vec![
            (absolute(&["a", "b", "batl.toml"]), "this is = not [ toml".to_string()),
            (absolute(&["a", "batl.toml"]), VALID.to_string()),
        ],
        asked: vec![],
    };
    let found = disk.run(Search::locate_possible(&absolute(&["a", "b", "c"]), "batl.toml"));
    assert_eq!(found, Some(absolute(&["a", "b"])));
    assert_eq!(
        disk.asked,
        vec!["exists /a/b/c/batl.toml".to_string(), "exists /a/b/batl.toml".to_string()]
    );
}

#[test]
fn locate_finds_nothing_and_ends() {
    let mut disk = Disk { files: vec![], asked: vec![] };
    let found = disk.run(Search::locate(&absolute(&["a", "b", "c"]), "batl.toml"));
    assert_eq!(found, None);
    assert_eq!(
        disk.asked,
        vec![
            "exists /a/b/c/batl.toml".to_string(),
            "exists /a/b/batl.toml".to_string(),
            "exists /a/batl.toml".to_string(),
            "exists /batl.toml".to_string(),
        ]
    );
    let mut corrupt_only = Disk {
        files: vec![(absolute(&["a", "batl.toml"]), "x".to_string())],
        asked: vec![],
    };
    assert_eq!(corrupt_only.run(Search::locate(&absolute(&["a"]), "batl.toml")), None);
}

#[test]
fn locate_starts_at_the_start() {
    let mut disk = Disk {
        files: vec![
            (absolute(&["a", "b", "batl.toml"]), VALID.to_string()),
            (absolute(&["a", "batl.toml"]), VALID.to_string()),
        ],
        asked: vec![],
    };
    let found = disk.run(Search::locate(&absolute(&["a", "b"]), "batl.toml"));
    assert_eq!(found, Some(absolute(&["a", "b"])));
}

#[test]
fn answers_to_other_questions_change_nothing() {
    let search = Search::locate(&absolute(&["a"]), "batl.toml");
    let search = search.step(Answer::Parsed(true));
    assert!(matches!(search.request(), Request::Exists(_)));
    let search = search.step(Answer::Exists(true));
    assert!(matches!(search.request(), Request::Read(_)));
    let search = search.step(Answer::Exists(false));
    assert!(matches!(search.request(), Request::Read(_)));
    let search = search.step(Answer::Parsed(true));
    assert!(search.is_done());
    let search = search.step(Answer::Exists(false));
    assert!(matches!(search.request(), Request::Done(Some(_))));
    assert_eq!(FileState::Valid, FileState::Valid);
}

#[test]
fn relative_search_ends_at_the_empty_path() {
    let start = FsPath::relative(vec!["x".to_string()]);
    let mut disk = Disk { files: vec![], asked: vec![] };
    assert_eq!(disk.run(Search::locate_possible(&start, ".batlrc")), None);
    assert_eq!(disk.asked, vec!["exists x/.batlrc".to_string(), "exists .batlrc".to_string()]);
}
