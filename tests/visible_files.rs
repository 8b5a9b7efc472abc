use amp_extras_core::json::Json;
use amp_extras_core::visible_files::{
    get_visible_buffers, handle_event, VisibleFilesChanged, WindowFile,
};

fn win(name: Option<&str>, exists: bool) -> WindowFile {
    WindowFile { name: name.map(|n| n.to_string()), exists }
}

#[test]
fn test_get_visible_buffers_returns_empty_without_nvim() {
    let result = get_visible_buffers(&vec![]);
    assert_eq!(result, Vec::<String>::new());
}

#[test]
fn visible_files_are_unique_existing_and_ordered() {
    let ws = vec![
        win(Some("/b.rs"), true),
        win(Some("/a.rs"), true),
        win(Some("/b.rs"), true),
        win(Some("/gone.rs"), false),
        win(Some("relative.rs"), true),
        win(None, true),
        win(Some(""), true),
        win(Some("/a.rs"), true),
    ];
    assert_eq!(get_visible_buffers(&ws), vec!["/b.rs".to_string(), "/a.rs".to_string()]);
    let n = handle_event(&ws);
    assert_eq!(n.uris, vec!["file:///b.rs".to_string(), "file:///a.rs".to_string()]);
}

#[test]
fn visible_files_payload_shape() {
    assert_eq!(VisibleFilesChanged::method(), "visibleFilesDidChange");
    let n = VisibleFilesChanged { uris: vec!["file:///x".to_string()] };
    let expected = Json::Object(vec![(
        "uris".to_string(),
        Json::Array(vec![Json::Str("file:///x".to_string())]),
    )]);
    assert_eq!(n.to_json(), expected);
}
