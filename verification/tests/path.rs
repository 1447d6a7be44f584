use ccs::path::file_name;
use std::path::Path;

#[test]
fn the_last_segment_is_the_name() {
    assert_eq!(file_name("/a/b/proj"), Some("proj".to_string()));
    assert_eq!(file_name("proj"), Some("proj".to_string()));
    assert_eq!(file_name("/tmp/repo"), Some("repo".to_string()));
    assert_eq!(file_name("a/b.txt"), Some("b.txt".to_string()));
    assert_eq!(file_name("/x/y/.hidden"), Some(".hidden".to_string()));
    assert_eq!(file_name("/x/..."), Some("...".to_string()));
    assert_eq!(file_name("/x/a."), Some("a.".to_string()));
    assert_eq!(file_name("/x/..a"), Some("..a".to_string()));
}

#[test]
fn slashes_and_dots_at_the_end_are_passed_over() {
    assert_eq!(file_name("/a/b/"), Some("b".to_string()));
    assert_eq!(file_name("/a/b///"), Some("b".to_string()));
    assert_eq!(file_name("/a/b/."), Some("b".to_string()));
    assert_eq!(file_name("/a/b/.//"), Some("b".to_string()));
    assert_eq!(file_name("/a/b/./."), Some("b".to_string()));
    assert_eq!(file_name("./a"), Some("a".to_string()));
}

#[test]
fn some_paths_have_no_name() {
    assert_eq!(file_name(""), None);
    assert_eq!(file_name("/"), None);
    assert_eq!(file_name("//"), None);
    assert_eq!(file_name("."), None);
    assert_eq!(file_name("./"), None);
    assert_eq!(file_name("/."), None);
    assert_eq!(file_name(".."), None);
    assert_eq!(file_name("/a/.."), None);
    assert_eq!(file_name("a/../"), None);
    assert_eq!(file_name("a/.././"), None);
}

#[test]
fn names_may_hold_any_character_but_the_slash() {
    assert_eq!(
        file_name("/home/zo\u{e9}/pr\u{f6}jekt \u{b7} 1"),
        Some("pr\u{f6}jekt \u{b7} 1".to_string())
    );
    assert_eq!(file_name("C:\\dir\\file"), Some("C:\\dir\\file".to_string()));
}

#[test]
fn the_name_is_the_one_that_the_platform_gives() {
    let parts = ["", "/", ".", "..", "a", "b.c", "...", "//", "/./", "a/", "./", "../", ".x", "x."];
    for a in parts {
        for b in parts {
            for c in parts {
                let path = format!("{a}{b}{c}");
                let expected = Path::new(&path)
                    .file_name()
                    .and_then(|n| n.to_str())
                    .map(str::to_string);
                assert_eq!(file_name(&path), expected, "for {path:?}");
            }
        }
    }
}
