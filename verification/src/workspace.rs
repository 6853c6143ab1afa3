//! Which resource panels of a cluster's workspace take an answer.
use vstd::prelude::*;
use crate::resource_panel::{ResourceLoadKind, ResourceUiEvent};

verus! {

/// The resource panels of a cluster's workspace.
#[derive(Clone, Copy, Debug, PartialEq, Eq, Structural)]
pub enum PanelId {
    ServiceAccount,
    Role,
    RoleBinding,
    HorizontalPodAutoscaler,
    PodDisruptionBudget,
    Lease,
    ConfigMap,
    CronJob,
    DaemonSet,
    Deployment,
    EndpointSlice,
    Endpoints,
    Event,
    Ingress,
    Job,
    LimitRange,
    Namespace,
    NetworkPolicy,
    PersistentVolumeClaim,
    ReplicaSet,
    ResourceQuota,
    Secret,
    Service,
    StatefulSet,
    Pod,
    ClusterRoleBinding,
    ClusterRole,
    Node,
    IngressClass,
    MutatingWebhookConfiguration,
    PersistentVolume,
    PriorityClass,
    StorageClass,
    RuntimeClass,
    ValidatingWebhookConfiguration,
    CustomResources,
}

/// The panels that show namespaced objects: they all take the namespace
/// list, in this order.
pub open spec fn namespace_panels() -> Seq<PanelId> {
    seq![
        PanelId::ServiceAccount,
        PanelId::Role,
        PanelId::RoleBinding,
        PanelId::HorizontalPodAutoscaler,
        PanelId::PodDisruptionBudget,
        PanelId::Lease,
        PanelId::ConfigMap,
        PanelId::CronJob,
        PanelId::DaemonSet,
        PanelId::Deployment,
        PanelId::EndpointSlice,
        PanelId::Endpoints,
        PanelId::Event,
        PanelId::Ingress,
        PanelId::Job,
        PanelId::LimitRange,
        PanelId::Namespace,
        PanelId::NetworkPolicy,
        PanelId::PersistentVolumeClaim,
        PanelId::ReplicaSet,
        PanelId::ResourceQuota,
        PanelId::Secret,
        PanelId::Service,
        PanelId::StatefulSet,
        PanelId::Pod,
    ]
}

/// The panels that take a list or watch answer of a request kind.
pub open spec fn kind_route(kind: ResourceLoadKind) -> Seq<PanelId> {
    match kind {
        ResourceLoadKind::CustomResourceDefinitions => seq![PanelId::CustomResources],
        ResourceLoadKind::CustomResources { .. } => seq![PanelId::CustomResources],
        ResourceLoadKind::Namespaces => namespace_panels(),
        ResourceLoadKind::ClusterRoleBindings => seq![PanelId::ClusterRoleBinding],
        ResourceLoadKind::ClusterRoles => seq![PanelId::ClusterRole],
        ResourceLoadKind::Nodes => seq![PanelId::Node],
        ResourceLoadKind::Events { .. } => seq![PanelId::Event],
        ResourceLoadKind::HorizontalPodAutoscalers { .. } => seq![PanelId::HorizontalPodAutoscaler],
        ResourceLoadKind::EndpointSlices { .. } => seq![PanelId::EndpointSlice],
        ResourceLoadKind::Endpoints { .. } => seq![PanelId::Endpoints],
        ResourceLoadKind::ConfigMaps { .. } => seq![PanelId::ConfigMap],
        ResourceLoadKind::CronJobs { .. } => seq![PanelId::CronJob],
        ResourceLoadKind::DaemonSets { .. } => seq![PanelId::DaemonSet],
        ResourceLoadKind::Deployments { .. } => seq![PanelId::Deployment],
        ResourceLoadKind::StatefulSets { .. } => seq![PanelId::StatefulSet],
        ResourceLoadKind::Jobs { .. } => seq![PanelId::Job],
        ResourceLoadKind::Leases { .. } => seq![PanelId::Lease],
        ResourceLoadKind::IngressClasses => seq![PanelId::IngressClass],
        ResourceLoadKind::Ingresses { .. } => seq![PanelId::Ingress],
        ResourceLoadKind::LimitRanges { .. } => seq![PanelId::LimitRange],
        ResourceLoadKind::MutatingWebhookConfigurations => seq![PanelId::MutatingWebhookConfiguration],
        ResourceLoadKind::NetworkPolicies { .. } => seq![PanelId::NetworkPolicy],
        ResourceLoadKind::PersistentVolumeClaims { .. } => seq![PanelId::PersistentVolumeClaim],
        ResourceLoadKind::PersistentVolumes => seq![PanelId::PersistentVolume],
        ResourceLoadKind::PodDisruptionBudgets { .. } => seq![PanelId::PodDisruptionBudget],
        ResourceLoadKind::PriorityClasses => seq![PanelId::PriorityClass],
        ResourceLoadKind::ReplicaSets { .. } => seq![PanelId::ReplicaSet],
        ResourceLoadKind::ResourceQuotas { .. } => seq![PanelId::ResourceQuota],
        ResourceLoadKind::RoleBindings { .. } => seq![PanelId::RoleBinding],
        ResourceLoadKind::Roles { .. } => seq![PanelId::Role],
        ResourceLoadKind::Secrets { .. } => seq![PanelId::Secret],
        ResourceLoadKind::ServiceAccounts { .. } => seq![PanelId::ServiceAccount],
        ResourceLoadKind::Services { .. } => seq![PanelId::Service],
        ResourceLoadKind::StorageClasses => seq![PanelId::StorageClass],
        ResourceLoadKind::RuntimeClasses => seq![PanelId::RuntimeClass],
        ResourceLoadKind::ValidatingWebhookConfigurations => seq![PanelId::ValidatingWebhookConfiguration],
        ResourceLoadKind::Pods { .. } => seq![PanelId::Pod],
    }
}

/// The panels that take an answer: list and watch answers go by their
/// request kind; action results and pod stream answers go to the Pods panel.
pub open spec fn event_route(event: ResourceUiEvent) -> Seq<PanelId> {
    match event {
        ResourceUiEvent::ResourcesLoaded { request, .. } => kind_route(request.kind),
        ResourceUiEvent::ResourceWatchUpdated { request, .. } => kind_route(request.kind),
        _ => seq![PanelId::Pod],
    }
}

/// The panels that take answers of a request kind.
pub fn kind_panels(kind: &ResourceLoadKind) -> (r: Vec<PanelId>)
    ensures
        r@ == kind_route(*kind),
{
    let mut v: Vec<PanelId> = Vec::new();
    match kind {
        ResourceLoadKind::CustomResourceDefinitions => v.push(PanelId::CustomResources),
        ResourceLoadKind::CustomResources { .. } => v.push(PanelId::CustomResources),
        ResourceLoadKind::Namespaces => {
            v.push(PanelId::ServiceAccount);
            v.push(PanelId::Role);
            v.push(PanelId::RoleBinding);
            v.push(PanelId::HorizontalPodAutoscaler);
            v.push(PanelId::PodDisruptionBudget);
            v.push(PanelId::Lease);
            v.push(PanelId::ConfigMap);
            v.push(PanelId::CronJob);
            v.push(PanelId::DaemonSet);
            v.push(PanelId::Deployment);
            v.push(PanelId::EndpointSlice);
            v.push(PanelId::Endpoints);
            v.push(PanelId::Event);
            v.push(PanelId::Ingress);
            v.push(PanelId::Job);
            v.push(PanelId::LimitRange);
            v.push(PanelId::Namespace);
            v.push(PanelId::NetworkPolicy);
            v.push(PanelId::PersistentVolumeClaim);
            v.push(PanelId::ReplicaSet);
            v.push(PanelId::ResourceQuota);
            v.push(PanelId::Secret);
            v.push(PanelId::Service);
            v.push(PanelId::StatefulSet);
            v.push(PanelId::Pod);
        },
        ResourceLoadKind::ClusterRoleBindings => v.push(PanelId::ClusterRoleBinding),
        ResourceLoadKind::ClusterRoles => v.push(PanelId::ClusterRole),
        ResourceLoadKind::Nodes => v.push(PanelId::Node),
        ResourceLoadKind::Events { .. } => v.push(PanelId::Event),
        ResourceLoadKind::HorizontalPodAutoscalers { .. } => v.push(PanelId::HorizontalPodAutoscaler),
        ResourceLoadKind::EndpointSlices { .. } => v.push(PanelId::EndpointSlice),
        ResourceLoadKind::Endpoints { .. } => v.push(PanelId::Endpoints),
        ResourceLoadKind::ConfigMaps { .. } => v.push(PanelId::ConfigMap),
        ResourceLoadKind::CronJobs { .. } => v.push(PanelId::CronJob),
        ResourceLoadKind::DaemonSets { .. } => v.push(PanelId::DaemonSet),
        ResourceLoadKind::Deployments { .. } => v.push(PanelId::Deployment),
        ResourceLoadKind::StatefulSets { .. } => v.push(PanelId::StatefulSet),
        ResourceLoadKind::Jobs { .. } => v.push(PanelId::Job),
        ResourceLoadKind::Leases { .. } => v.push(PanelId::Lease),
        ResourceLoadKind::IngressClasses => v.push(PanelId::IngressClass),
        ResourceLoadKind::Ingresses { .. } => v.push(PanelId::Ingress),
        ResourceLoadKind::LimitRanges { .. } => v.push(PanelId::LimitRange),
        ResourceLoadKind::MutatingWebhookConfigurations => v.push(PanelId::MutatingWebhookConfiguration),
        ResourceLoadKind::NetworkPolicies { .. } => v.push(PanelId::NetworkPolicy),
        ResourceLoadKind::PersistentVolumeClaims { .. } => v.push(PanelId::PersistentVolumeClaim),
        ResourceLoadKind::PersistentVolumes => v.push(PanelId::PersistentVolume),
        ResourceLoadKind::PodDisruptionBudgets { .. } => v.push(PanelId::PodDisruptionBudget),
        ResourceLoadKind::PriorityClasses => v.push(PanelId::PriorityClass),
        ResourceLoadKind::ReplicaSets { .. } => v.push(PanelId::ReplicaSet),
        ResourceLoadKind::ResourceQuotas { .. } => v.push(PanelId::ResourceQuota),
        ResourceLoadKind::RoleBindings { .. } => v.push(PanelId::RoleBinding),
        ResourceLoadKind::Roles { .. } => v.push(PanelId::Role),
        ResourceLoadKind::Secrets { .. } => v.push(PanelId::Secret),
        ResourceLoadKind::ServiceAccounts { .. } => v.push(PanelId::ServiceAccount),
        ResourceLoadKind::Services { .. } => v.push(PanelId::Service),
        ResourceLoadKind::StorageClasses => v.push(PanelId::StorageClass),
        ResourceLoadKind::RuntimeClasses => v.push(PanelId::RuntimeClass),
        ResourceLoadKind::ValidatingWebhookConfigurations => v.push(PanelId::ValidatingWebhookConfiguration),
        ResourceLoadKind::Pods { .. } => v.push(PanelId::Pod),
    }
    assert(v@ =~= kind_route(*kind));
    v
}

/// The panels of the workspace that take an answer, in delivery order.
pub fn resource_event_panels(event: &ResourceUiEvent) -> (r: Vec<PanelId>)
    ensures
        r@ == event_route(*event),
{
    match event {
        ResourceUiEvent::ResourcesLoaded { request, .. } => kind_panels(&request.kind),
        ResourceUiEvent::ResourceWatchUpdated { request, .. } => kind_panels(&request.kind),
        _ => {
            let mut v: Vec<PanelId> = Vec::new();
            v.push(PanelId::Pod);
            assert(v@ =~= seq![PanelId::Pod]);
            v
        },
    }
}

/// A namespace list or watch answer.
pub open spec fn is_namespace_answer(event: ResourceUiEvent) -> bool {
    match event {
        ResourceUiEvent::ResourcesLoaded { request, .. } => request.kind == ResourceLoadKind::Namespaces,
        ResourceUiEvent::ResourceWatchUpdated { request, .. } => request.kind == ResourceLoadKind::Namespaces,
        _ => false,
    }
}

/// A namespace list or watch answer reaches every panel of namespaced
/// objects, each once, and no other panel.
pub proof fn law_namespace_answers_reach_namespaced_panels(event: ResourceUiEvent)
    requires
        is_namespace_answer(event),
    ensures
        event_route(event) == namespace_panels(),
        event_route(event).no_duplicates(),
        event_route(event).contains(PanelId::Job),
        event_route(event).contains(PanelId::CronJob),
        event_route(event).contains(PanelId::Deployment),
        event_route(event).contains(PanelId::Event),
        event_route(event).contains(PanelId::Pod),
        !event_route(event).contains(PanelId::Node),
        !event_route(event).contains(PanelId::CustomResources),
{
    let s = namespace_panels();
    assert(s[14] == PanelId::Job);
    assert(s[7] == PanelId::CronJob);
    assert(s[9] == PanelId::Deployment);
    assert(s[12] == PanelId::Event);
    assert(s[24] == PanelId::Pod);
}

/// A list or watch answer of any other kind reaches exactly one panel.
pub proof fn law_kind_answers_reach_one_panel(kind: ResourceLoadKind)
    requires
        kind != ResourceLoadKind::Namespaces,
    ensures
        kind_route(kind).len() == 1,
{
}

/// Action results and pod stream answers reach the Pods panel alone.
pub proof fn law_other_answers_reach_pods_only(event: ResourceUiEvent)
    requires
        !(event is ResourcesLoaded),
        !(event is ResourceWatchUpdated),
    ensures
        event_route(event) == seq![PanelId::Pod],
{
}

} // verus!
