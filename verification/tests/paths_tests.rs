use mermaid_render::paths::{join_path, parent_dir, str_ends_with};

#[test]
fn join_inserts_separator() {
    assert_eq!(join_path("/tmp/sandbox", "input.mmd"), "/tmp/sandbox/input.mmd");
    assert_eq!(join_path("", "node"), "/node");
}

#[test]
fn parent_of_nested_path() {
    assert_eq!(parent_dir("/tmp/out/diagram.png"), Some("/tmp/out".to_string()));
    assert_eq!(parent_dir("a/b"), Some("a".to_string()));
}

#[test]
fn parent_of_bare_name_is_none() {
    assert_eq!(parent_dir("diagram.png"), None);
    assert_eq!(parent_dir(""), None);
}

#[test]
fn parent_of_root_child_is_empty() {
    assert_eq!(parent_dir("/node"), Some("".to_string()));
}

#[test]
fn suffix_tests() {
    assert!(str_ends_with("node_modules/.bin/mmdc", "mmdc"));
    assert!(str_ends_with("mmdc", "mmdc"));
    assert!(!str_ends_with("mmdc", "node_modules/.bin/mmdc"));
    assert!(!str_ends_with("node_modules/.bin/mmdc.cmd", "mmdc"));
    assert!(str_ends_with("anything", ""));
}
