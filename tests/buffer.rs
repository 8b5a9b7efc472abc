use amp_extras_core::buffer::{find_by_path, get_line_content, BufferInfo};

fn buf(loaded: bool, name: Option<&str>, lines: Option<Vec<&str>>) -> BufferInfo {
    BufferInfo {
        loaded,
        name: name.map(|n| n.to_string()),
        lines: lines.map(|ls| ls.into_iter().map(|l| l.to_string()).collect()),
    }
}

#[test]
fn test_find_by_path_returns_none_when_not_found() {
    let result = find_by_path(&vec![], "/nonexistent/file.txt");
    assert!(result.is_none());
}

#[test]
fn test_get_line_content_returns_empty_when_not_found() {
    let content = get_line_content(&vec![], "/nonexistent/file.txt", 0);
    assert_eq!(content, "");
}

#[test]
fn find_by_path_skips_unloaded_and_unnamed_buffers() {
    let bufs = vec![
        buf(false, Some("/a.txt"), None),
        buf(true, None, None),
        buf(true, Some("/b.txt"), None),
        buf(true, Some("/a.txt"), None),
        buf(true, Some("/a.txt"), None),
    ];
    assert_eq!(find_by_path(&bufs, "/a.txt"), Some(3));
    assert_eq!(find_by_path(&bufs, "/b.txt"), Some(2));
    assert_eq!(find_by_path(&bufs, "/c.txt"), None);
}

#[test]
fn get_line_content_reads_the_line() {
    let bufs = vec![
        buf(true, Some("/a.txt"), Some(vec!["zero", "one", "two"])),
        buf(true, Some("/b.txt"), None),
    ];
    assert_eq!(get_line_content(&bufs, "/a.txt", 1), "one");
    assert_eq!(get_line_content(&bufs, "/a.txt", 3), "");
    assert_eq!(get_line_content(&bufs, "/a.txt", usize::MAX), "");
    assert_eq!(get_line_content(&bufs, "/b.txt", 0), "");
}

#[test]
fn find_by_path_compares_as_paths() {
    let bufs = vec![buf(true, Some("/a//b.txt"), Some(vec!["x"]))];
    assert_eq!(find_by_path(&bufs, "/a/b.txt"), Some(0));
    assert_eq!(find_by_path(&bufs, "/a/b.txt/"), Some(0));
    assert_eq!(find_by_path(&bufs, "/a/c.txt"), None);
    assert_eq!(get_line_content(&bufs, "/a/b.txt", 0), "x");
}
