use wezlix::paths::{is_root_path, parent_dir, path_join};

#[test]
fn join_basic() {
    assert_eq!(path_join("/usr/local", "bin"), "/usr/local/bin");
}

#[test]
fn join_relative_dir() {
    assert_eq!(path_join("target", "app"), "target/app");
}

#[test]
fn parent_of_nested_path() {
    assert_eq!(parent_dir("/usr/local/bin/wezlix").as_deref(), Some("/usr/local/bin"));
}

#[test]
fn parent_of_top_level_path() {
    assert_eq!(parent_dir("/wezlix").as_deref(), Some("/"));
}

#[test]
fn parent_of_bare_name() {
    assert_eq!(parent_dir("wezlix"), None);
}

#[test]
fn parent_of_empty() {
    assert_eq!(parent_dir(""), None);
}

#[test]
fn root_detection() {
    assert!(is_root_path("/"));
    assert!(!is_root_path("/home"));
    assert!(!is_root_path(""));
    assert!(!is_root_path("x"));
}
