use clap_file::Target;
use std::path::PathBuf;

fn file(text: &str) -> Target {
    Target::File(PathBuf::from(text))
}

#[test]
fn hyphen_names_the_standard_stream() {
    assert_eq!(Target::from_argument("-"), Target::Standard);
}

#[test]
fn other_text_names_the_file_at_that_path() {
    assert_eq!(Target::from_argument("notes.txt"), file("notes.txt"));
    assert_eq!(Target::from_argument("/var/log/app.log"), file("/var/log/app.log"));
    assert_eq!(Target::from_argument("dir/with space/α.txt"), file("dir/with space/α.txt"));
}

#[test]
fn path_is_the_whole_argument_and_nothing_else() {
    match Target::from_argument("a/b.txt") {
        Target::File(path) => {
            assert_eq!(path.to_str(), Some("a/b.txt"));
            assert_ne!(path, PathBuf::from("a"));
        }
        Target::Standard => panic!("a path was read as the standard stream"),
    }
}

#[test]
fn empty_argument_is_a_path() {
    assert_eq!(Target::from_argument(""), file(""));
}

#[test]
fn only_the_lone_hyphen_is_the_marker() {
    assert_eq!(Target::from_argument("--"), file("--"));
    assert_eq!(Target::from_argument("-x"), file("-x"));
    assert_eq!(Target::from_argument("x-"), file("x-"));
    assert_eq!(Target::from_argument(" -"), file(" -"));
    assert_eq!(Target::from_argument("- "), file("- "));
    assert_eq!(Target::from_argument("./-"), file("./-"));
}

#[test]
fn dashes_that_are_not_the_ascii_hyphen_are_paths() {
    assert_eq!(Target::from_argument("\u{2013}"), file("\u{2013}"));
    assert_eq!(Target::from_argument("\u{2212}"), file("\u{2212}"));
    assert_eq!(Target::from_argument("\u{ff0d}"), file("\u{ff0d}"));
}
