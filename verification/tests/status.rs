use miku_ui::status::{
    status_bar_cluster_version, status_bar_connection_summary, ClusterConnectionInfo, ClusterConnectionState,
    StatusBarConnectionTone,
};

#[test]
fn status_bar_connection_summary_includes_selected_cluster_version_and_status() {
    let summary = status_bar_connection_summary(
        Some("kind-miku"),
        Some(&ClusterConnectionState::Ready {
            info: ClusterConnectionInfo { version: "v1.35.0".to_owned(), platform: Some("darwin/arm64".to_owned()) },
        }),
    );

    assert_eq!(summary.text, format!("{} kind-miku | v1.35.0 | Connected", egui_phosphor::regular::CHECK_CIRCLE));
    assert_eq!(summary.hover.as_deref(), Some("Platform: darwin/arm64"));
    assert_eq!(summary.tone, StatusBarConnectionTone::Accent);
}

#[test]
fn status_bar_connection_summary_reports_failed_connection() {
    let summary = status_bar_connection_summary(
        Some("kind-miku"),
        Some(&ClusterConnectionState::Failed { error: "forbidden".to_owned() }),
    );

    assert_eq!(
        summary.text,
        format!("{} kind-miku | version unknown | Connection failed", egui_phosphor::regular::WARNING_CIRCLE)
    );
    assert_eq!(summary.hover.as_deref(), Some("forbidden"));
    assert_eq!(summary.tone, StatusBarConnectionTone::Error);
}

#[test]
fn status_bar_without_cluster_says_so() {
    let summary = status_bar_connection_summary(None, None);

    assert_eq!(summary.text, format!("{} No cluster selected", egui_phosphor::regular::CIRCLE));
    assert_eq!(summary.hover, None);
    assert_eq!(summary.tone, StatusBarConnectionTone::Weak);
}

#[test]
fn status_bar_idle_and_connecting_clusters() {
    let idle = status_bar_connection_summary(Some("kind-miku"), None);
    assert_eq!(idle.text, format!("{} kind-miku | version unknown | Not connected", egui_phosphor::regular::CIRCLE));
    assert_eq!(idle.hover.as_deref(), Some("Cluster has not been initialized yet"));
    assert_eq!(idle.tone, StatusBarConnectionTone::Weak);

    let connecting = status_bar_connection_summary(Some("kind-miku"), Some(&ClusterConnectionState::Initializing));
    assert!(connecting.text.starts_with(egui_phosphor::regular::CIRCLE_NOTCH));
    assert!(connecting.text.ends_with(" kind-miku | version unknown | Connecting"));
}

#[test]
fn status_bar_ready_without_version_or_platform() {
    let summary = status_bar_connection_summary(
        Some("kind-miku"),
        Some(&ClusterConnectionState::Ready {
            info: ClusterConnectionInfo { version: String::new(), platform: None },
        }),
    );
    assert_eq!(
        summary.text,
        format!("{} kind-miku | version unknown | Connected", egui_phosphor::regular::CHECK_CIRCLE)
    );
    assert_eq!(status_bar_cluster_version(""), "version unknown");
    assert_eq!(status_bar_cluster_version("v1.30.1"), "v1.30.1");
}
