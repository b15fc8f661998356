use huak::paths::{final_component, join_under, parent_dir};

#[test]
fn join_puts_one_separator_between() {
    assert_eq!(join_under("a", "b"), "a/b");
    assert_eq!(join_under("/tmp/x", ".venv"), "/tmp/x/.venv");
    assert_eq!(join_under("", "b"), "/b");
}

#[test]
fn parent_of_nested_path() {
    assert_eq!(parent_dir("/a/b"), Some("/a".to_string()));
    assert_eq!(parent_dir("a/b"), Some("a".to_string()));
    assert_eq!(parent_dir("/a/b/c"), Some("/a/b".to_string()));
}

#[test]
fn parent_of_top_level_entry_is_root() {
    assert_eq!(parent_dir("/a"), Some("/".to_string()));
}

#[test]
fn root_and_bare_names_have_no_parent() {
    assert_eq!(parent_dir("/"), None);
    assert_eq!(parent_dir("a"), None);
    assert_eq!(parent_dir(""), None);
}

#[test]
fn final_component_is_last_segment() {
    assert_eq!(final_component("/a/.venv"), Some(".venv".to_string()));
    assert_eq!(final_component("a/b/c"), Some("c".to_string()));
    assert_eq!(final_component("venv"), Some("venv".to_string()));
}

#[test]
fn final_component_rejects_empty_and_dots() {
    assert_eq!(final_component("/a/"), None);
    assert_eq!(final_component("/a/.."), None);
    assert_eq!(final_component("/a/."), None);
    assert_eq!(final_component(""), None);
}
