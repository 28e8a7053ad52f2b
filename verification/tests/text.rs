use batl::text::{join_strs, same_text, split_str};

fn strings(parts: &[&str]) -> Vec<String> {
    parts.iter().map(|part| part.to_string()).collect()
}

#[test]
fn text_is_cut_at_every_separator() {
    assert_eq!(split_str("a/b/c", '/'), strings(&["a", "b", "c"]));
    assert_eq!(split_str("abc", '/'), strings(&["abc"]));
    assert_eq!(split_str("", '/'), strings(&[""]));
    assert_eq!(split_str("/", '/'), strings(&["", ""]));
    assert_eq!(split_str("a//b/", '/'), strings(&["a", "", "b", ""]));
    assert_eq!(split_str("é/ü", '/'), strings(&["é", "ü"]));
    assert_eq!(split_str("a.b", '.'), strings(&["a", "b"]));
}

#[test]
fn pieces_are_joined_with_the_separator() {
    assert_eq!(join_strs(&strings(&["a", "b", "c"]), "/"), "a/b/c");
    assert_eq!(join_strs(&strings(&["abc"]), "/"), "abc");
    assert_eq!(join_strs(&strings(&["a", "b", "c"]), ", "), "a, b, c");
    assert_eq!(join_strs(&strings(&["a", "b"]), ""), "ab");
    assert_eq!(join_strs(&strings(&[]), "/"), "");
    assert_eq!(join_strs(&strings(&["", ""]), "/"), "/");
    assert_eq!(join_strs(&split_str("x//y/", '/'), "/"), "x//y/");
    assert_eq!(split_str(&join_strs(&strings(&["p", "", "q"]), "/"), '/'), strings(&["p", "", "q"]));
}

#[test]
fn texts_are_the_same_when_their_characters_are() {
    assert!(same_text("", ""));
    assert!(same_text("batl.toml", "batl.toml"));
    assert!(!same_text("batl.toml", "batl.tom"));
    assert!(!same_text("a", "b"));
    assert!(same_text("é", "é"));
    assert!(!same_text("é", "e"));
}
