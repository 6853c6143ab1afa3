use miku_ui::resource_panel::components::{
    na, namespace_line, namespace_value, replica_ratio, resource_target_label, selected_delete_targets, visible_keys,
    DescribeField, ResourceRowTarget,
};
use miku_ui::resource_panel::table::KeySet;
use miku_ui::resource_panel::ResourceDeleteTarget;

fn target(key: &str, namespace: Option<&str>, name: &str) -> ResourceRowTarget {
    ResourceRowTarget { key: key.to_owned(), namespace: namespace.map(str::to_owned), name: name.to_owned() }
}

#[test]
fn namespace_lines_appear_for_namespaced_kinds_only() {
    assert_eq!(namespace_line(true, "production"), "  namespace: production\n");
    assert_eq!(namespace_line(false, "production"), "");
}

#[test]
fn target_labels_show_the_namespace_when_there_is_one() {
    let namespaced = ResourceDeleteTarget { namespace: Some("default".to_owned()), name: "api".to_owned() };
    let cluster = ResourceDeleteTarget { namespace: None, name: "admin".to_owned() };
    assert_eq!(resource_target_label(&namespaced), "default/api");
    assert_eq!(resource_target_label(&cluster), "admin");
}

#[test]
fn selection_follows_row_order_and_visible_rows() {
    let targets = vec![
        target("default/api", Some("default"), "api"),
        target("admin", None, "admin"),
        target("prod/web", Some("prod"), "web"),
    ];
    let keys = visible_keys(&targets);
    assert_eq!(keys.len(), 3);
    assert!(keys.contains("admin"));
    assert!(!keys.contains("prod/db"));

    let mut selected = KeySet::new();
    selected.insert("prod/web");
    selected.insert("default/api");
    selected.insert("gone/row");
    assert_eq!(
        selected_delete_targets(&targets, &selected),
        vec![
            ResourceDeleteTarget { namespace: Some("default".to_owned()), name: "api".to_owned() },
            ResourceDeleteTarget { namespace: Some("prod".to_owned()), name: "web".to_owned() },
        ]
    );
}

#[test]
fn small_texts_render_as_shown() {
    assert_eq!(na(), "N/A");
    assert_eq!(namespace_value("default"), Some("default".to_owned()));
    assert_eq!(namespace_value("N/A"), None);
    assert_eq!(namespace_value(""), None);
    assert_eq!(replica_ratio(2, Some(3)), "2/3");
    assert_eq!(replica_ratio(0, None), "0/N/A");
    let field = DescribeField::new("Name", "api");
    assert_eq!(field.label, "Name");
    assert_eq!(field.value, "api");
}

#[test]
fn key_sets_keep_each_key_once() {
    let mut keys = KeySet::new();
    keys.insert("a");
    keys.insert("a");
    keys.insert("b");
    assert_eq!(keys.len(), 2);
    keys.remove("a");
    assert!(!keys.contains("a"));
    assert!(keys.contains("b"));
    keys.clear();
    assert_eq!(keys.len(), 0);
}
