use miku_ui::cluster_panels::{ClusterPanelMap, ClusterPanels};
use miku_ui::json::JsonValue;
use miku_ui::resource_panel::{ClusterId, ResourceList, ResourceSummary, ResourceUiEvent};
use miku_ui::workspace::PanelId;
use miku_ui::yaml::parse_yaml_document;

const NOW: i64 = 1_800_000_000;

fn json(text: &str) -> JsonValue {
    parse_yaml_document(text).unwrap()
}

fn job_summary(name: &str) -> ResourceSummary {
    ResourceSummary {
        name: name.to_owned(),
        namespace: Some("default".to_owned()),
        kind: "Job".to_owned(),
        status: None,
        raw: json(&format!(
            r#"{{"metadata": {{"name": "{name}", "namespace": "default", "creationTimestamp": "2026-05-18T10:00:00Z"}}}}"#
        )),
    }
}

fn loaded(request: miku_ui::resource_panel::ResourceLoadRequest, names: &[&str]) -> ResourceUiEvent {
    ResourceUiEvent::ResourcesLoaded {
        request,
        result: Ok(ResourceList { items: names.iter().map(|n| job_summary(n)).collect(), continue_token: None }),
    }
}

#[test]
fn new_cluster_panels_are_empty() {
    let panels = ClusterPanels::new();
    assert!(panels.job.state.rows.is_empty());
    assert!(panels.lease.state.rows.is_empty());
    assert!(panels.custom_resources.crds.rows.is_empty());
}

#[test]
fn selecting_a_cluster_gives_it_panels_once() {
    let mut map = ClusterPanelMap::new();
    assert!(map.panels("a").is_none());
    map.ensure_cluster("a");
    assert!(map.panels("a").is_some());
    assert!(map.panels("b").is_none());
    map.ensure_cluster("a");
    assert_eq!(map.clusters.len(), 1);
    map.ensure_cluster("b");
    assert_eq!(map.clusters.len(), 2);
}

#[test]
fn answers_reach_only_their_cluster() {
    let mut map = ClusterPanelMap::new();
    map.ensure_cluster("a");
    map.ensure_cluster("b");
    let request = map.clusters[0].1.job.request_jobs(ClusterId::new("a"));
    map.deliver("a", PanelId::Job, loaded(request, &["backup"]), NOW);
    assert_eq!(map.panels("a").unwrap().job.state.rows.len(), 1);
    assert_eq!(map.panels("a").unwrap().job.state.rows[0].name, "backup");
    assert!(map.panels("b").unwrap().job.state.rows.is_empty());
}

#[test]
fn answers_for_an_unknown_cluster_make_its_panels() {
    let mut map = ClusterPanelMap::new();
    let mut sender = ClusterPanels::new();
    let request = sender.job.request_jobs(ClusterId::new("c"));
    map.deliver("c", PanelId::Job, loaded(request, &["backup"]), NOW);
    let panels = map.panels("c").unwrap();
    assert!(panels.job.state.rows.is_empty());
}

#[test]
fn answers_for_panels_not_held_change_nothing() {
    let mut map = ClusterPanelMap::new();
    map.ensure_cluster("a");
    let request = map.clusters[0].1.job.request_jobs(ClusterId::new("a"));
    map.deliver("a", PanelId::Pod, loaded(request, &["backup"]), NOW);
    assert!(map.panels("a").unwrap().job.state.rows.is_empty());
}
