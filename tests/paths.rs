use std::cmp::Ordering;
use std::path::Path;

use relative_path::{compare_paths, compare_str, paths_eq, AsRelativePath, RelativePath, RelativePathBuf};

fn assert_components(components: &[&str], path: &RelativePathBuf) {
    let result: Vec<&str> = path.components().collect();
    assert_eq!(components, &result[..]);
}

fn components_of(text: &str) -> Vec<&str> {
    RelativePath::new(text).components().collect()
}

fn raw(path: &RelativePathBuf) -> &str {
    path.as_relative_path().as_str()
}

#[test]
fn test_join() {
    assert_components(
        &["foo", "bar", "baz"],
        &RelativePath::new("foo/bar").join("baz///"),
    );
    assert_components(
        &["foo", "bar", "baz"],
        &RelativePath::new("hello/world").join("///foo/bar/baz"),
    );
    assert_components(
        &["foo", "bar", "baz"],
        &RelativePath::new("").join("///foo/bar/baz"),
    );
}

#[test]
fn test_components_iterator() {
    assert_eq!(
        vec!["hello", "world"],
        RelativePath::new("/hello///world//").components().collect()
    );
}

#[test]
fn test_to_path_buf() {
    let path = RelativePath::new("/hello///world//");
    let path_buf = path.to_relative_of(Path::new("."));
    let expected = Path::new(".").join("hello").join("world");
    assert_eq!(expected, path_buf);
}

#[test]
fn test_eq() {
    assert_eq!(RelativePath::new("//foo///bar"), RelativePath::new("/foo/bar"));
    assert_eq!(RelativePath::new("foo///bar"), RelativePath::new("foo/bar"));
    assert_eq!(RelativePath::new("foo"), RelativePath::new("foo"));
    assert_eq!(RelativePath::new("foo"), RelativePath::new("foo").to_relative_path_buf());
}

#[test]
fn separator_runs_collapse() {
    assert_eq!(vec!["foo", "bar"], components_of("foo/bar"));
    assert_eq!(vec!["foo", "bar"], components_of("foo///bar"));
    assert_eq!(vec!["foo", "bar"], components_of("foo//bar///"));
}

#[test]
fn edge_cases_of_components() {
    assert!(components_of("").is_empty());
    assert!(components_of("/").is_empty());
    assert!(components_of("////").is_empty());
    assert_eq!(vec!["a"], components_of("a"));
    assert_eq!(vec!["a"], components_of("/a/"));
    assert_eq!(vec!["é", "ü.txt"], components_of("é//ü.txt"));
    assert!(RelativePathBuf::new().components().collect().is_empty());
}

#[test]
fn components_step_by_step() {
    let mut it = RelativePath::new("//ab/c").components();
    assert_eq!(Some("ab"), it.next());
    assert_eq!(Some("c"), it.next());
    assert_eq!(None, it.next());
    assert_eq!(None, it.next());
}

#[test]
fn components_compare_what_is_left() {
    let a = RelativePath::new("x/a/b").components();
    let mut b = RelativePath::new("a//b").components();
    assert!(a != b);
    let mut a2 = a.fork();
    a2.next();
    assert!(a2 == b);
    b.next();
    assert!(a2 != b);
}

#[test]
fn join_relative_concatenates() {
    let joined = RelativePath::new("foo/bar").join("baz///");
    assert_eq!("foo/bar/baz///", raw(&joined));
    let joined = RelativePath::new("").join("baz");
    assert_eq!("baz", raw(&joined));
    let base = RelativePathBuf::from(String::from("a//"));
    let joined = base.join("b");
    assert_eq!("a///b", raw(&joined));
    assert_components(&["a", "b"], &joined);
    assert_eq!("a//", raw(&base));
}

#[test]
fn join_absolute_resets_base() {
    let joined = RelativePath::new("hello/world").join("///foo/bar/baz");
    assert_eq!("///foo/bar/baz", raw(&joined));
    let base = RelativePathBuf::from(String::from("hello/world"));
    let joined = base.join("/x");
    assert_eq!("/x", raw(&joined));
    let joined = RelativePath::new("a").join(RelativePath::new("/y"));
    assert_eq!("/y", raw(&joined));
    let joined = RelativePath::new("a").join(&RelativePathBuf::from(String::from("b")));
    assert_eq!("a/b", raw(&joined));
    let joined = RelativePath::new("a").join(String::from("c"));
    assert_eq!("a/c", raw(&joined));
}

#[test]
fn push_appends_one_separator() {
    let mut p = RelativePathBuf::new();
    p.push("foo");
    assert_eq!("foo", raw(&p));
    p.push("bar//");
    assert_eq!("foo/bar//", raw(&p));
    p.push("baz");
    assert_eq!("foo/bar///baz", raw(&p));
    assert_components(&["foo", "bar", "baz"], &p);
    p.push("/root");
    assert_eq!("/root", raw(&p));
}

#[test]
fn push_empty_keeps_components() {
    let mut p = RelativePathBuf::from(String::from("foo/bar"));
    p.push("");
    assert_eq!("foo/bar/", raw(&p));
    assert_components(&["foo", "bar"], &p);
    let mut e = RelativePathBuf::new();
    e.push("");
    assert_eq!("", raw(&e));
}

#[test]
fn is_absolute_looks_at_first_character() {
    assert!(RelativePath::new("/a").is_absolute());
    assert!(RelativePath::new("/").is_absolute());
    assert!(!RelativePath::new("a/").is_absolute());
    assert!(!RelativePath::new("").is_absolute());
    assert!(!RelativePathBuf::new().is_absolute());
    assert!(RelativePathBuf::from(String::from("//x")).is_absolute());
}

#[test]
fn equality_by_components() {
    assert_eq!(RelativePath::new("/foo/bar"), RelativePath::new("foo/bar"));
    assert_ne!(RelativePath::new("foo/bar"), RelativePath::new("foo/baz"));
    assert_ne!(RelativePath::new("bar/foo"), RelativePath::new("foo/bar"));
    assert_ne!(RelativePath::new("foobar"), RelativePath::new("foo/bar"));
    let owned = RelativePathBuf::from(String::from("foo//bar/"));
    assert!(owned == RelativePath::new("foo/bar"));
    assert!(RelativePath::new("foo/bar") == owned);
    assert!(owned == RelativePathBuf::from(String::from("/foo/bar")));
    assert!(paths_eq(RelativePath::new("a//b"), RelativePath::new("a/b/")));
    assert!(!paths_eq(RelativePath::new("a"), RelativePath::new("a/b")));
}

#[test]
fn ordering_by_components() {
    let cmp = |a: &str, b: &str| compare_paths(RelativePath::new(a), RelativePath::new(b));
    assert_eq!(Ordering::Less, cmp("a/b", "a/c"));
    assert_eq!(Ordering::Less, cmp("a", "a/b"));
    assert_eq!(Ordering::Greater, cmp("a/b", "a"));
    assert_eq!(Ordering::Greater, cmp("b", "a/z"));
    assert_eq!(Ordering::Equal, cmp("//a/b", "a/b//"));
    assert_eq!(Ordering::Greater, cmp("a-b", "a/b"));
    assert!(RelativePath::new("a-b") > RelativePath::new("a/b"));
    assert!(RelativePath::new("a") < RelativePathBuf::from(String::from("a/b")));
    assert_eq!(
        Some(Ordering::Equal),
        RelativePathBuf::from(String::from("x")).partial_cmp(&RelativePath::new("/x"))
    );
}

#[test]
fn compare_str_is_lexicographic() {
    assert_eq!(Ordering::Equal, compare_str("", ""));
    assert_eq!(Ordering::Less, compare_str("", "a"));
    assert_eq!(Ordering::Less, compare_str("ab", "abc"));
    assert_eq!(Ordering::Greater, compare_str("b", "abc"));
    assert_eq!(Ordering::Less, compare_str("z", "é"));
}

#[test]
fn to_relative_of_uses_components() {
    let buf = RelativePathBuf::from(String::from("a//b/"));
    let expected = Path::new("base").join("a").join("b");
    assert_eq!(expected, buf.to_relative_of(Path::new("base")));
    assert_eq!(Path::new("base").to_path_buf(), RelativePath::new("//").to_relative_of(Path::new("base")));
}

#[test]
fn from_and_into_string_keep_text() {
    let p = RelativePathBuf::from(String::from("//a///b"));
    assert_eq!(String::from("//a///b"), p.to_relative_path_buf().into_string());
    assert_eq!("//a///b", raw(&p));
}

#[test]
fn comparisons_with_borrowed_paths_and_text() {
    let owned = RelativePathBuf::from(String::from("foo//bar"));
    let view = RelativePath::new("/foo/bar");
    let view_ref = &view;
    assert!(owned == view_ref);
    assert!(view_ref == owned);
    assert!(*"foo/bar/" == view);
    assert!(view == *"foo///bar");
    assert!(owned == *"foo/bar");
    assert!(view_ref == *"foo/bar");
    assert!(view_ref == String::from("foo/bar"));
    assert!(String::from("foo/baz") != view_ref);
    assert!(view_ref < *"foo/baz");
    assert!(owned > *"foo");
    assert!(view_ref > String::from("a/z"));
    assert!(RelativePath::new("a-b") > *"a/b");
}

#[test]
fn owned_and_borrowed_convert_alike() {
    let owned = RelativePathBuf::from(String::from("/hello///world//"));
    let view = RelativePath::new("/hello///world//");
    assert_eq!(view.to_relative_of(Path::new(".")), owned.to_relative_of(Path::new(".")));
    assert_eq!(Path::new(".").join("hello").join("world"), owned.to_relative_of(Path::new(".")));
}
