use miku_ui::resource_panel::{
    ClusterId, PodStreamRequest, ResourceEvent, ResourceList, ResourceLoadKind, ResourceLoadRequest, ResourceUiEvent,
    ResourceWatchRequest,
};
use miku_ui::workspace::{kind_panels, resource_event_panels, PanelId};

fn loaded(kind: ResourceLoadKind) -> ResourceUiEvent {
    ResourceUiEvent::ResourcesLoaded {
        request: ResourceLoadRequest { request_id: 1, cluster_id: ClusterId::new("local"), kind },
        result: Ok(ResourceList { items: Vec::new(), continue_token: None }),
    }
}

#[test]
fn namespace_answers_reach_every_namespaced_panel_once() {
    let panels = resource_event_panels(&loaded(ResourceLoadKind::Namespaces));
    assert_eq!(panels.len(), 25);
    assert_eq!(panels[0], PanelId::ServiceAccount);
    assert_eq!(panels[24], PanelId::Pod);
    for panel in [PanelId::Job, PanelId::CronJob, PanelId::Deployment, PanelId::Event, PanelId::Lease] {
        assert_eq!(panels.iter().filter(|p| **p == panel).count(), 1);
    }
    assert!(!panels.contains(&PanelId::Node));
    assert!(!panels.contains(&PanelId::CustomResources));

    let watch = ResourceUiEvent::ResourceWatchUpdated {
        request: ResourceWatchRequest { request_id: 2, cluster_id: ClusterId::new("local"), kind: ResourceLoadKind::Namespaces },
        result: Ok(ResourceEvent::Snapshot(ResourceList { items: Vec::new(), continue_token: None })),
    };
    assert_eq!(resource_event_panels(&watch), panels);
}

#[test]
fn kind_answers_reach_their_panel() {
    assert_eq!(kind_panels(&ResourceLoadKind::Jobs { namespace: None }), vec![PanelId::Job]);
    assert_eq!(kind_panels(&ResourceLoadKind::Leases { namespace: Some("a".to_owned()) }), vec![PanelId::Lease]);
    assert_eq!(kind_panels(&ResourceLoadKind::CustomResourceDefinitions), vec![PanelId::CustomResources]);
    assert_eq!(kind_panels(&ResourceLoadKind::ClusterRoleBindings), vec![PanelId::ClusterRoleBinding]);
    assert_eq!(resource_event_panels(&loaded(ResourceLoadKind::Endpoints { namespace: None })), vec![PanelId::Endpoints]);
}

#[test]
fn pod_stream_answers_reach_the_pods_panel() {
    let event = ResourceUiEvent::PodLogsLoaded {
        request: PodStreamRequest {
            request_id: 3,
            cluster_id: ClusterId::new("local"),
            namespace: "default".to_owned(),
            pod: "api".to_owned(),
        },
        result: Ok("log line".to_owned()),
    };
    assert_eq!(resource_event_panels(&event), vec![PanelId::Pod]);
    assert_eq!(event.cluster_id(), &ClusterId::new("local"));
}
