use miku_ui::clusters::{ClusterConnections, ClusterSummary};
use miku_ui::navigation::Navigation;
use miku_ui::status::ClusterConnectionState;

fn cluster(id: &str, name: &str) -> ClusterSummary {
    ClusterSummary { id: id.to_owned(), name: name.to_owned(), context: id.to_owned(), current: false }
}

fn select(navigation: &mut Navigation, connections: &mut ClusterConnections, cluster: &ClusterSummary) {
    navigation.select_cluster(&cluster.id, &cluster.name);
    connections.begin_initialization(&cluster.id, false, false);
}

#[test]
fn selecting_clusters_creates_separate_workspaces() {
    let mut navigation = Navigation::new();
    let mut connections = ClusterConnections::new();
    let first = cluster("first", "Cluster");
    let second = cluster("second", "Cluster");

    select(&mut navigation, &mut connections, &first);
    navigation.open_resource_tab("Pods");
    select(&mut navigation, &mut connections, &second);

    assert!(navigation.workspace(&first.id).unwrap().has_tab("Pods"));
    assert!(!navigation.workspace(&second.id).unwrap().has_tab("Pods"));
}

#[test]
fn switching_back_to_cluster_restores_its_workspace_tabs() {
    let mut navigation = Navigation::new();
    let mut connections = ClusterConnections::new();
    let first = cluster("first", "First");
    let second = cluster("second", "Second");

    select(&mut navigation, &mut connections, &first);
    navigation.open_resource_tab("Pods");
    select(&mut navigation, &mut connections, &second);
    navigation.open_resource_tab("Services");
    select(&mut navigation, &mut connections, &first);

    let first_workspace = navigation.workspace(&first.id).unwrap();
    let second_workspace = navigation.workspace(&second.id).unwrap();
    assert!(first_workspace.has_tab("Pods"));
    assert!(!first_workspace.has_tab("Services"));
    assert!(second_workspace.has_tab("Services"));
}

#[test]
fn selected_resource_is_scoped_to_the_selected_workspace() {
    let mut navigation = Navigation::new();
    let mut connections = ClusterConnections::new();
    let first = cluster("first", "First");
    let second = cluster("second", "Second");

    select(&mut navigation, &mut connections, &first);
    navigation.open_resource_tab("Pods");
    select(&mut navigation, &mut connections, &second);

    assert_eq!(navigation.selected_workspace_resource(), None);

    select(&mut navigation, &mut connections, &first);

    assert_eq!(navigation.selected_workspace_resource(), Some("Pods"));
}

#[test]
fn selecting_cluster_marks_initialization_failed_without_services() {
    let mut navigation = Navigation::new();
    let mut connections = ClusterConnections::new();
    let first = cluster("first", "First");

    select(&mut navigation, &mut connections, &first);

    assert_eq!(navigation.selected_cluster_id(), Some(first.id.as_str()));
    assert!(navigation.workspace(&first.id).is_some());
    assert!(matches!(
        connections.state_of(&first.id),
        Some(ClusterConnectionState::Failed { error }) if error == "cluster services are not available"
    ));
}

#[test]
fn opening_an_open_tab_only_picks_it() {
    let mut navigation = Navigation::new();
    assert!(!navigation.open_resource_tab("Pods"));
    assert!(navigation.workspace("first").is_none());

    navigation.select_cluster("first", "First");
    assert!(navigation.open_resource_tab("Pods"));
    assert!(navigation.open_resource_tab("Services"));
    assert!(!navigation.open_resource_tab("Pods"));

    let workspace = navigation.workspace("first").unwrap();
    assert_eq!(workspace.open_tabs, vec!["Pods".to_owned(), "Services".to_owned()]);
    assert_eq!(workspace.selected_resource.as_deref(), Some("Pods"));
}
