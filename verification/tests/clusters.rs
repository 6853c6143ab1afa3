use miku_ui::clusters::{ClusterConnections, ClusterRegistry, ClusterSummary, ClusterUiEvent};
use miku_ui::status::{ClusterConnectionInfo, ClusterConnectionState};

fn cluster(id: &str, name: &str) -> ClusterSummary {
    ClusterSummary { id: id.to_owned(), name: name.to_owned(), context: id.to_owned(), current: false }
}

#[test]
fn cluster_initialized_event_updates_matching_cluster_state() {
    let mut registry = ClusterRegistry::new();
    registry.connections.set("local", ClusterConnectionState::Initializing);

    registry.apply_event(ClusterUiEvent::ClusterInitialized {
        cluster_id: "local".to_owned(),
        result: Ok(ClusterConnectionInfo { version: "v1.35.0".to_owned(), platform: Some("darwin/arm64".to_owned()) }),
    });

    assert!(matches!(
        registry.connections.state_of("local"),
        Some(ClusterConnectionState::Ready { info })
            if info.version == "v1.35.0" && info.platform.as_deref() == Some("darwin/arm64")
    ));
}

#[test]
fn cluster_initialized_failure_updates_matching_cluster_state() {
    let mut registry = ClusterRegistry::new();

    registry.apply_event(ClusterUiEvent::ClusterInitialized {
        cluster_id: "local".to_owned(),
        result: Err("forbidden".to_owned()),
    });

    assert!(matches!(
        registry.connections.state_of("local"),
        Some(ClusterConnectionState::Failed { error }) if error == "forbidden"
    ));
}

#[test]
fn ready_cluster_state_prevents_duplicate_initialization() {
    let mut connections = ClusterConnections::new();
    let ready = ClusterConnectionState::Ready {
        info: ClusterConnectionInfo { version: "v1.35.0".to_owned(), platform: None },
    };
    connections.set("first", ready);

    let start = connections.begin_initialization("first", false, false);

    assert!(!start);
    assert_eq!(
        connections.state_of("first"),
        Some(&ClusterConnectionState::Ready {
            info: ClusterConnectionInfo { version: "v1.35.0".to_owned(), platform: None },
        })
    );
}

#[test]
fn initialization_without_services_fails_at_once() {
    let mut connections = ClusterConnections::new();

    let start = connections.begin_initialization("first", false, false);

    assert!(!start);
    assert!(matches!(
        connections.state_of("first"),
        Some(ClusterConnectionState::Failed { error }) if error == "cluster services are not available"
    ));
}

#[test]
fn initialization_without_runtime_fails_at_once() {
    let mut connections = ClusterConnections::new();

    assert!(!connections.begin_initialization("first", true, false));
    assert!(matches!(
        connections.state_of("first"),
        Some(ClusterConnectionState::Failed { error }) if error == "cluster runtime is not available"
    ));
}

#[test]
fn idle_and_failed_clusters_start_connecting_once() {
    let mut connections = ClusterConnections::new();
    assert!(connections.begin_initialization("first", true, true));
    assert_eq!(connections.state_of("first"), Some(&ClusterConnectionState::Initializing));
    assert!(!connections.begin_initialization("first", true, true));

    connections.set("second", ClusterConnectionState::Failed { error: "timeout".to_owned() });
    assert!(connections.begin_initialization("second", true, true));
    assert_eq!(connections.state_of("second"), Some(&ClusterConnectionState::Initializing));
    assert_eq!(connections.state_of("first"), Some(&ClusterConnectionState::Initializing));
    assert_eq!(connections.state_of("third"), None);
}

#[test]
fn cluster_list_answers_replace_the_list_or_record_the_error() {
    let mut registry = ClusterRegistry::new();
    assert!(registry.begin_refresh(true, true));
    assert!(registry.load_in_flight);

    registry.apply_event(ClusterUiEvent::ClustersLoaded(Ok(vec![cluster("first", "First")])));
    assert!(!registry.load_in_flight);
    assert_eq!(registry.clusters, vec![cluster("first", "First")]);
    assert_eq!(registry.load_error, None);

    registry.apply_event(ClusterUiEvent::ClustersLoaded(Err("offline".to_owned())));
    assert_eq!(registry.clusters, vec![cluster("first", "First")]);
    assert_eq!(registry.load_error.as_deref(), Some("offline"));

    assert!(!registry.begin_refresh(false, true));
    assert!(!registry.begin_refresh(true, false));
}

#[test]
fn new_cluster_submission_checks_its_inputs() {
    let mut registry = ClusterRegistry::new();
    registry.new_cluster_form.open();
    registry.new_cluster_form.context = "   ".to_owned();
    registry.new_cluster_form.config = "apiVersion: v1".to_owned();

    assert_eq!(registry.begin_submission(true, true), None);
    assert_eq!(registry.new_cluster_form.error.as_deref(), Some("context is required"));

    registry.new_cluster_form.context = "  kind-miku ".to_owned();
    registry.new_cluster_form.config = " \n".to_owned();
    assert_eq!(registry.begin_submission(true, true), None);
    assert_eq!(registry.new_cluster_form.error.as_deref(), Some("config is required"));

    registry.new_cluster_form.config = "apiVersion: v1".to_owned();
    assert_eq!(registry.begin_submission(false, true), None);
    assert_eq!(registry.new_cluster_form.error.as_deref(), Some("cluster storage is not available"));
    assert_eq!(registry.begin_submission(true, false), None);
    assert_eq!(registry.new_cluster_form.error.as_deref(), Some("cluster storage runtime is not available"));

    let request = registry.begin_submission(true, true).unwrap();
    assert_eq!(request.context, "kind-miku");
    assert_eq!(request.config, "apiVersion: v1");
    assert_eq!(registry.new_cluster_form.error, None);
    assert!(registry.load_in_flight);
    assert!(registry.new_cluster_form.open);
}

#[test]
fn stored_cluster_closes_the_form_and_asks_for_a_reload() {
    let mut registry = ClusterRegistry::new();
    registry.new_cluster_form.open();
    registry.new_cluster_form.context = "kind-miku".to_owned();

    let reload = registry.apply_event(ClusterUiEvent::ClusterCreated(Ok(cluster("kind-miku", "kind-miku"))));

    assert!(reload);
    assert!(!registry.new_cluster_form.open);
    assert_eq!(registry.new_cluster_form.context, "");
    assert_eq!(registry.clusters, vec![cluster("kind-miku", "kind-miku")]);

    registry.load_in_flight = true;
    let reload = registry.apply_event(ClusterUiEvent::ClusterCreated(Err("duplicate context".to_owned())));
    assert!(!reload);
    assert!(!registry.load_in_flight);
    assert_eq!(registry.new_cluster_form.error.as_deref(), Some("duplicate context"));
}

#[test]
fn loaded_config_file_fills_the_form() {
    let mut registry = ClusterRegistry::new();
    registry.new_cluster_form.error = Some("old".to_owned());

    registry.apply_event(ClusterUiEvent::ConfigFileLoaded(Ok("apiVersion: v1".to_owned())));
    assert_eq!(registry.new_cluster_form.config, "apiVersion: v1");
    assert_eq!(registry.new_cluster_form.error, None);

    registry.apply_event(ClusterUiEvent::ConfigFileLoaded(Err("permission denied".to_owned())));
    assert_eq!(registry.new_cluster_form.config, "apiVersion: v1");
    assert_eq!(registry.new_cluster_form.error.as_deref(), Some("permission denied"));
}

#[test]
fn ready_cluster_stays_ready_when_services_are_there() {
    let mut connections = ClusterConnections::new();
    connections.set(
        "first",
        ClusterConnectionState::Ready { info: ClusterConnectionInfo { version: "v1".to_owned(), platform: None } },
    );
    assert!(!connections.begin_initialization("first", true, true));
    assert!(matches!(connections.state_of("first"), Some(ClusterConnectionState::Ready { .. })));
}
