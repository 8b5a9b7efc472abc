use amp_extras_core::error::AmpError;
use amp_extras_core::path::{from_uri, is_absolute_path, to_relative, to_uri};

#[test]
fn test_to_uri() {
    let uri = to_uri("/tmp/test.txt");
    assert_eq!(uri, "file:///tmp/test.txt");
}

#[test]
fn test_to_uri_with_spaces() {
    let uri = to_uri("/tmp/my file.txt");
    assert_eq!(uri, "file:///tmp/my file.txt");
}

#[test]
fn test_from_uri() {
    let path = from_uri("file:///tmp/test.txt");
    assert_eq!(path, Some("/tmp/test.txt".to_string()));
}

#[test]
fn test_from_uri_invalid() {
    let path = from_uri("http://example.com/file.txt");
    assert_eq!(path, None);
}

#[test]
fn test_roundtrip() {
    let original = "/home/user/project/src/main.rs";
    let uri = to_uri(original);
    let back = from_uri(&uri);
    assert_eq!(back, Some(original.to_string()));
}

#[test]
fn from_uri_rejects_short_and_near_prefixes() {
    assert_eq!(from_uri(""), None);
    assert_eq!(from_uri("file:/"), None);
    assert_eq!(from_uri("file:/x/y"), None);
    assert_eq!(from_uri("FILE:///tmp"), None);
}

#[test]
fn from_uri_of_bare_prefix_is_empty_path() {
    assert_eq!(from_uri("file://"), Some(String::new()));
}

#[test]
fn round_trip_with_non_ascii_path() {
    let p = "/tmp/répertoire/ファイル.txt";
    assert_eq!(from_uri(&to_uri(p)), Some(p.to_string()));
}

#[test]
fn absolute_paths_start_at_root() {
    assert!(is_absolute_path("/a"));
    assert!(!is_absolute_path("a/b"));
    assert!(!is_absolute_path(""));
}

#[test]
fn to_relative_takes_editor_answer() {
    let r = to_relative("/home/user/project/src/main.rs", Some("src/main.rs".to_string()));
    assert_eq!(r.unwrap(), "src/main.rs");
}

#[test]
fn to_relative_falls_back_to_absolute_path() {
    let p = "/home/user/project/src/main.rs";
    assert_eq!(to_relative(p, None).unwrap(), p);
    assert_eq!(to_relative(p, Some("v:null".to_string())).unwrap(), p);
    assert_eq!(to_relative(p, Some(String::new())).unwrap(), p);
}

#[test]
fn to_relative_rejects_empty_path() {
    match to_relative("", Some("x".to_string())) {
        Err(AmpError::Other(m)) => assert_eq!(m, "Empty path provided"),
        Ok(_) => panic!("empty path accepted"),
    }
}

#[test]
fn to_relative_rejects_unresolved_relative_path() {
    match to_relative("src/main.rs", None) {
        Err(e) => assert_eq!(e.message(), "Failed to get relative path for: src/main.rs"),
        Ok(_) => panic!("relative path accepted"),
    }
}
