use scan_orchestrator::paths::{
    chars_eq, file_name, lex_lt, path_le, path_starts_with, split_segments, with_extension,
};
use scan_orchestrator::text::{chars_to_string, str_to_chars, u64_to_string};

fn chars(s: &str) -> Vec<char> {
    s.chars().collect()
}

#[test]
fn decimal_rendering() {
    assert_eq!(u64_to_string(0), "0");
    assert_eq!(u64_to_string(7), "7");
    assert_eq!(u64_to_string(10), "10");
    assert_eq!(u64_to_string(90210), "90210");
    assert_eq!(u64_to_string(u64::MAX), "18446744073709551615");
}

#[test]
fn char_round_trip() {
    let v = str_to_chars("héllo/wörld");
    assert_eq!(chars_to_string(&v), "héllo/wörld");
    assert!(chars_eq(&v, &chars("héllo/wörld")));
    assert!(!chars_eq(&v, &chars("hello/world")));
}

#[test]
fn segments_drop_empty_runs() {
    let segs = split_segments(&chars("//a//b/"));
    let segs: Vec<String> = segs.iter().map(|s| s.iter().collect()).collect();
    assert_eq!(segs, vec!["a", "b"]);
    assert!(split_segments(&chars("")).is_empty());
    assert!(split_segments(&chars("///")).is_empty());
}

#[test]
fn file_names() {
    assert_eq!(file_name(&chars("/a/b/c.txt")), Some(chars("c.txt")));
    assert_eq!(file_name(&chars("c.txt")), Some(chars("c.txt")));
    assert_eq!(file_name(&chars("/a/b/")), Some(chars("b")));
    assert_eq!(file_name(&chars("/")), None);
    assert_eq!(file_name(&chars("/a/..")), None);
    assert_eq!(file_name(&chars(".")), None);
}

#[test]
fn starts_with_is_component_wise() {
    assert!(path_starts_with(&chars("/a/b/c"), &chars("/a/b")));
    assert!(path_starts_with(&chars("/a/b"), &chars("/a/b")));
    assert!(!path_starts_with(&chars("/a/bc"), &chars("/a/b")));
    assert!(!path_starts_with(&chars("/a/b"), &chars("a/b")));
    assert!(path_starts_with(&chars("a/b"), &chars("a")));
    assert!(path_starts_with(&chars("a"), &chars("")));
}

#[test]
fn ordering_prefers_parents() {
    assert!(path_le(&chars("/a"), &chars("/a/b")));
    assert!(!path_le(&chars("/a/b"), &chars("/a")));
    assert!(path_le(&chars("/a/c"), &chars("/a-b")));
    assert!(path_le(&chars("/a/b"), &chars("/a/b")));
    assert!(lex_lt(&chars("abc"), &chars("abd")));
    assert!(lex_lt(&chars("ab"), &chars("abc")));
    assert!(!lex_lt(&chars("abc"), &chars("abc")));
}

#[test]
fn extension_replacement() {
    let new = with_extension(&chars("/a/file.txt"), &chars("md"));
    assert_eq!(chars_to_string(&new), "/a/file.md");
    let new = with_extension(&chars("/a/archive.tar"), &chars("gz"));
    assert_eq!(chars_to_string(&new), "/a/archive.gz");
    let new = with_extension(&chars("/a/plain"), &chars("md"));
    assert_eq!(chars_to_string(&new), "/a/plain.md");
    let new = with_extension(&chars("/a/file.txt"), &chars(""));
    assert_eq!(chars_to_string(&new), "/a/file");
    // a trailing separator is dropped: the last segment is the file part
    let new = with_extension(&chars("/a/file.txt/"), &chars("md"));
    assert_eq!(chars_to_string(&new), "/a/file.md");
    let new = with_extension(&chars("a/b//"), &chars("md"));
    assert_eq!(chars_to_string(&new), "a/b.md");
    // no file part: the path is left unchanged
    let new = with_extension(&chars("/"), &chars("md"));
    assert_eq!(chars_to_string(&new), "/");
    let new = with_extension(&chars("/a/.."), &chars("md"));
    assert_eq!(chars_to_string(&new), "/a/..");
}
