//! Tests for the path string utilities.

use project::util::basename;
use project::util::diff_paths;
use project::util::filename;

/// The components of a path text, for comparisons that ignore
/// separators the way path equality does.
fn comps(s: &str) -> Vec<String> {
    s.split('/').filter(|p| !p.is_empty() && *p != ".").map(|p| p.to_string()).collect()
}

#[test]
fn test_basename() {
    assert_eq!(basename("bar"), "bar");
    assert_eq!(basename("foo/bar"), "bar");
    assert_eq!(basename("foo/bar/"), "bar");
    assert_eq!(basename("baz/foo.bar"), "foo.bar");
}

#[test]
fn test_filename() {
    assert_eq!(filename("foo/bar"), "bar");
    assert_eq!(filename("foo/bar/"), "bar");
    assert_eq!(filename("baz/foo.bar"), "foo.bar");
}

#[test]
fn test_diff_paths() {
    let baz = "/foo/bar/baz";
    let bar = "/foo/bar";
    let quux = "/foo/bar/quux";

    assert_eq!(diff_paths(bar, baz).map(|s| comps(&s)), Some(comps("../")));
    assert_eq!(diff_paths(baz, bar), Some("baz".to_string()));
    assert_eq!(diff_paths(quux, baz), Some("../quux".to_string()));
    assert_eq!(diff_paths(baz, quux), Some("../baz".to_string()));
    assert_eq!(diff_paths(bar, quux).map(|s| comps(&s)), Some(comps("../")));
}

#[test]
fn diff_paths_absolute_vs_relative() {
    assert_eq!(diff_paths("/a/b", "c/d"), Some("/a/b".to_string()));
    assert_eq!(diff_paths("c/d", "/a/b"), None);
}

#[test]
fn diff_paths_normalizes_dots_and_separators() {
    assert_eq!(diff_paths("/a//b/./c", "/a/b"), Some("c".to_string()));
    assert_eq!(diff_paths("/a/b", "/a/b"), Some("".to_string()));
}

#[test]
fn basename_ignores_dot_segments() {
    assert_eq!(basename("foo/."), "foo");
    assert_eq!(basename("a//b//"), "b");
}
