//! Resource panels: the tables of Kubernetes objects shown per cluster, the
//! requests they send and the events that answer them.

pub mod table;
pub mod actions;
pub mod components;
pub mod state;
pub mod job;
pub mod cron_job;
pub mod deployment;
pub mod event;
pub mod config_shared;
pub mod custom_resources;
pub mod list_panel;
pub mod templates;
pub mod describe;



use vstd::prelude::*;
use crate::json::JsonValue;
use crate::text::str_eq;

verus! {

/// The identity of a configured cluster.
#[derive(Clone, Debug, PartialEq, Eq)]
pub struct ClusterId {
    pub id: String,
}

impl ClusterId {
    /// A cluster id with the given text.
    pub fn new(id: &str) -> (r: ClusterId)
        ensures
            r.id@ == id@,
    {
        ClusterId { id: id.to_owned() }
    }

    /// A copy of this id.
    pub fn duplicate(&self) -> (r: ClusterId)
        ensures
            r.id@ == self.id@,
    {
        ClusterId { id: self.id.clone() }
    }

    /// Whether two ids name the same cluster.
    pub fn same(&self, other: &ClusterId) -> (r: bool)
        ensures
            r == (self.id@ == other.id@),
    {
        str_eq(self.id.as_str(), other.id.as_str())
    }
}

/// An API resource: its group (none for the core group), version, plural
/// name, and whether its objects live in namespaces.
#[derive(Clone, Debug, PartialEq, Eq)]
pub struct ResourceRef {
    pub group: Option<String>,
    pub version: String,
    pub plural: String,
    pub namespaced: bool,
}

/// The text of an optional string.
pub open spec fn opt_view(o: Option<String>) -> Option<Seq<char>> {
    match o {
        Some(s) => Some(s@),
        None => None,
    }
}

/// Two resource references name the same resource.
pub open spec fn same_resource_spec(a: ResourceRef, b: ResourceRef) -> bool {
    &&& opt_view(a.group) == opt_view(b.group)
    &&& a.version@ == b.version@
    &&& a.plural@ == b.plural@
    &&& a.namespaced == b.namespaced
}

/// Whether two optional texts are equal.
pub fn same_opt_text(a: &Option<String>, b: &Option<String>) -> (r: bool)
    ensures
        r == (opt_view(*a) == opt_view(*b)),
{
    match (a, b) {
        (Some(x), Some(y)) => str_eq(x.as_str(), y.as_str()),
        (None, None) => true,
        _ => false,
    }
}

/// A copy of an optional text.
pub fn copy_opt_text(a: &Option<String>) -> (r: Option<String>)
    ensures
        opt_view(r) == opt_view(*a),
{
    match a {
        Some(x) => Some(x.clone()),
        None => None,
    }
}

impl ResourceRef {
    /// A namespaced resource of a named API group.
    pub fn grouped(group: &str, version: &str, plural: &str) -> (r: ResourceRef)
        ensures
            opt_view(r.group) == Some(group@),
            r.version@ == version@,
            r.plural@ == plural@,
            r.namespaced,
    {
        ResourceRef {
            group: Some(group.to_owned()),
            version: version.to_owned(),
            plural: plural.to_owned(),
            namespaced: true,
        }
    }

    /// A namespaced resource of the core API group.
    pub fn core_api(version: &str, plural: &str) -> (r: ResourceRef)
        ensures
            r.group is None,
            r.version@ == version@,
            r.plural@ == plural@,
            r.namespaced,
    {
        ResourceRef {
            group: None,
            version: version.to_owned(),
            plural: plural.to_owned(),
            namespaced: true,
        }
    }

    /// The same resource, whose objects are cluster scoped.
    pub fn cluster_scoped(self) -> (r: ResourceRef)
        ensures
            opt_view(r.group) == opt_view(self.group),
            r.version@ == self.version@,
            r.plural@ == self.plural@,
            !r.namespaced,
    {
        ResourceRef { namespaced: false, ..self }
    }

    /// Whether `self` and `other` name the same resource.
    pub fn same(&self, other: &ResourceRef) -> (r: bool)
        ensures
            r == same_resource_spec(*self, *other),
    {
        same_opt_text(&self.group, &other.group) && str_eq(self.version.as_str(), other.version.as_str())
            && str_eq(self.plural.as_str(), other.plural.as_str()) && self.namespaced == other.namespaced
    }
}

/// What a load or watch request asks for.  Kinds that live in namespaces
/// carry the namespace to list (all namespaces when none).
#[derive(Clone, Debug, PartialEq, Eq)]
pub enum ResourceLoadKind {
    Namespaces,
    Nodes,
    ConfigMaps { namespace: Option<String> },
    EndpointSlices { namespace: Option<String> },
    Endpoints { namespace: Option<String> },
    IngressClasses,
    Ingresses { namespace: Option<String> },
    NetworkPolicies { namespace: Option<String> },
    CronJobs { namespace: Option<String> },
    Deployments { namespace: Option<String> },
    Events { namespace: Option<String> },
    LimitRanges { namespace: Option<String> },
    DaemonSets { namespace: Option<String> },
    StatefulSets { namespace: Option<String> },
    ReplicaSets { namespace: Option<String> },
    Jobs { namespace: Option<String> },
    ResourceQuotas { namespace: Option<String> },
    Secrets { namespace: Option<String> },
    Services { namespace: Option<String> },
    Pods { namespace: Option<String> },
    PersistentVolumeClaims { namespace: Option<String> },
    PersistentVolumes,
    StorageClasses,
    ClusterRoleBindings,
    ClusterRoles,
    RoleBindings { namespace: Option<String> },
    Roles { namespace: Option<String> },
    ServiceAccounts { namespace: Option<String> },
    HorizontalPodAutoscalers { namespace: Option<String> },
    PodDisruptionBudgets { namespace: Option<String> },
    PriorityClasses,
    RuntimeClasses,
    Leases { namespace: Option<String> },
    MutatingWebhookConfigurations,
    ValidatingWebhookConfigurations,
    CustomResourceDefinitions,
    CustomResources { resource: ResourceRef },
}

/// A one-shot list request.
#[derive(Clone, Debug, PartialEq, Eq)]
pub struct ResourceLoadRequest {
    pub request_id: u64,
    pub cluster_id: ClusterId,
    pub kind: ResourceLoadKind,
}

/// A watch request: the answers are snapshots or changes of the list.
#[derive(Clone, Debug, PartialEq, Eq)]
pub struct ResourceWatchRequest {
    pub request_id: u64,
    pub cluster_id: ClusterId,
    pub kind: ResourceLoadKind,
}

/// One listed object: its name and namespace as listed, its kind and status
/// text, and the object's manifest.
#[derive(Debug, PartialEq)]
pub struct ResourceSummary {
    pub name: String,
    pub namespace: Option<String>,
    pub kind: String,
    pub status: Option<String>,
    pub raw: JsonValue,
}

/// A page of listed objects.
#[derive(Debug, PartialEq)]
pub struct ResourceList {
    pub items: Vec<ResourceSummary>,
    pub continue_token: Option<String>,
}

/// What a watch delivers: the whole list, or one change to it.
#[derive(Debug, PartialEq)]
pub enum ResourceEvent {
    Snapshot(ResourceList),
    Added(ResourceSummary),
    Modified(ResourceSummary),
    Deleted(ResourceSummary),
}

/// The object a delete acts on.
#[derive(Clone, Debug, PartialEq, Eq)]
pub struct ResourceDeleteTarget {
    pub namespace: Option<String>,
    pub name: String,
}

/// What an action request asks the cluster to do.
#[derive(Debug, PartialEq)]
pub enum ResourceActionKind {
    DeleteResource { resource: ResourceRef, namespace: Option<String>, name: String },
    ApplyResource { resource: ResourceRef, namespace: Option<String>, name: String, manifest: JsonValue },
    PatchResource { resource: ResourceRef, namespace: Option<String>, name: String, patch: JsonValue },
    BatchDeleteResources { resource: ResourceRef, targets: Vec<ResourceDeleteTarget> },
}

/// An action request.
#[derive(Debug, PartialEq)]
pub struct ResourceActionRequest {
    pub request_id: u64,
    pub cluster_id: ClusterId,
    pub kind: ResourceActionKind,
}

/// What a completed action did.
#[derive(Debug, PartialEq)]
pub enum ResourceActionOutcome {
    Applied(ResourceSummary),
    Deleted,
    BatchDeleted(Vec<ResourceDeleteTarget>),
    Patched(ResourceSummary),
    Evicted,
}

/// A request for a pod stream (logs, attach, exec).
#[derive(Clone, Debug, PartialEq, Eq)]
pub struct PodStreamRequest {
    pub request_id: u64,
    pub cluster_id: ClusterId,
    pub namespace: String,
    pub pod: String,
}

/// An answer delivered to the resource panels.
#[derive(Debug, PartialEq)]
pub enum ResourceUiEvent {
    ResourcesLoaded { request: ResourceLoadRequest, result: Result<ResourceList, String> },
    ResourceWatchUpdated { request: ResourceWatchRequest, result: Result<ResourceEvent, String> },
    ResourceActionCompleted { request: ResourceActionRequest, result: Result<ResourceActionOutcome, String> },
    PodLogsLoaded { request: PodStreamRequest, result: Result<String, String> },
    PodAttachConnected { request: PodStreamRequest, result: Result<String, String> },
    PodAttachOutput { request: PodStreamRequest, result: Result<String, String> },
    PodExecConnected { request: PodStreamRequest, result: Result<String, String> },
    PodExecOutput { request: PodStreamRequest, result: Result<String, String> },
}

impl ResourceUiEvent {
    /// The cluster the answer belongs to.
    pub open spec fn cluster_of(&self) -> ClusterId {
        match self {
            ResourceUiEvent::ResourcesLoaded { request, .. } => request.cluster_id,
            ResourceUiEvent::ResourceWatchUpdated { request, .. } => request.cluster_id,
            ResourceUiEvent::ResourceActionCompleted { request, .. } => request.cluster_id,
            ResourceUiEvent::PodLogsLoaded { request, .. } => request.cluster_id,
            ResourceUiEvent::PodAttachConnected { request, .. } => request.cluster_id,
            ResourceUiEvent::PodAttachOutput { request, .. } => request.cluster_id,
            ResourceUiEvent::PodExecConnected { request, .. } => request.cluster_id,
            ResourceUiEvent::PodExecOutput { request, .. } => request.cluster_id,
        }
    }

    /// The cluster the answer belongs to.
    pub fn cluster_id(&self) -> (r: &ClusterId)
        ensures
            *r == self.cluster_of(),
    {
        match self {
            ResourceUiEvent::ResourcesLoaded { request, .. } => &request.cluster_id,
            ResourceUiEvent::ResourceWatchUpdated { request, .. } => &request.cluster_id,
            ResourceUiEvent::ResourceActionCompleted { request, .. } => &request.cluster_id,
            ResourceUiEvent::PodLogsLoaded { request, .. } => &request.cluster_id,
            ResourceUiEvent::PodAttachConnected { request, .. } => &request.cluster_id,
            ResourceUiEvent::PodAttachOutput { request, .. } => &request.cluster_id,
            ResourceUiEvent::PodExecConnected { request, .. } => &request.cluster_id,
            ResourceUiEvent::PodExecOutput { request, .. } => &request.cluster_id,
        }
    }
}

/// Where a panel's list stands.
#[derive(Clone, Debug, PartialEq, Eq)]
pub enum LoadStatus {
    Idle,
    Loading,
    Loaded,
    Error(String),
}

impl Default for LoadStatus {
    fn default() -> (r: LoadStatus)
        ensures
            r == LoadStatus::Idle,
    {
        LoadStatus::Idle
    }
}

/// The names of the listed namespaces, in list order.
pub open spec fn namespace_names(items: Seq<ResourceSummary>) -> Seq<Seq<char>> {
    items.map_values(|s: ResourceSummary| s.name@)
}

/// The views of a list of texts.
pub open spec fn texts_view(v: Seq<String>) -> Seq<Seq<char>> {
    v.map_values(|s: String| s@)
}

/// The names of the namespaces in a namespace list, in list order.
pub fn namespaces_from_list(list: &ResourceList) -> (r: Vec<String>)
    ensures
        texts_view(r@) == namespace_names(list.items@),
{
    let mut names: Vec<String> = Vec::new();
    let mut i: usize = 0;
    while i < list.items.len()
        invariant
            i <= list.items@.len(),
            texts_view(names@) == namespace_names(list.items@).take(i as int),
        decreases list.items@.len() - i,
    {
        let name = list.items[i].name.clone();
        let ghost before = names@;
        names.push(name);
        assert(texts_view(names@) =~= texts_view(before).push(name@));
        assert(texts_view(names@) =~= namespace_names(list.items@).take(i + 1));
        i = i + 1;
    }
    assert(namespace_names(list.items@).take(i as int) =~= namespace_names(list.items@));
    names
}

} // verus!
