//! A panel that lists objects of one kind by name, namespace and age, with
//! the selection, delete and apply actions every panel has.  The endpoints
//! and cluster role binding panels are such panels.
use vstd::prelude::*;
use crate::json::JsonValue;
use crate::resource_panel::{
    ClusterId, ResourceActionKind, ResourceActionOutcome, ResourceDeleteTarget, ResourceEvent,
    ResourceList, ResourceLoadKind, ResourceLoadRequest, ResourceRef, ResourceSummary,
    ResourceUiEvent, ResourceWatchRequest, copy_opt_text, opt_view, texts_view,
};
use crate::resource_panel::components::{
    ManifestViewDialog, ResourceRowTarget, age_spec, age_text, field_has, field_matches,
    name_of_summary, namespace_of_summary, namespace_value, namespace_value_spec, or_empty,
    slash_join, slash_key, summary_name, summary_namespace, text_or_empty,
};
use crate::resource_panel::config_shared::{config_key, config_key_spec};
use crate::resource_panel::job::{namespace_name_before, namespace_name_less};
use crate::resource_panel::state::{
    ActionEffect, ActionResult, PanelRow, PanelState, list_names_result, names_of_load, names_of_watch,
    watch_names_result,
};
use crate::resource_panel::table::{TableRow, sort_rows, sort_views, text_less, text_lt, views};


verus! {

/// The kinds a list panel shows.
#[derive(Clone, Copy, Debug, PartialEq, Eq, Structural)]
pub enum ListKind {
    Endpoints,
    ClusterRoleBindings,
}

impl ListKind {
    /// Endpoints live in namespaces; cluster role bindings do not.
    pub open spec fn namespaced_spec(self) -> bool {
        self == ListKind::Endpoints
    }

    /// Whether the kind's objects live in namespaces.
    pub fn is_namespaced(self) -> (r: bool)
        ensures
            r == self.namespaced_spec(),
    {
        match self {
            ListKind::Endpoints => true,
            ListKind::ClusterRoleBindings => false,
        }
    }

    /// Whether `r` is the kind's resource: `v1 endpoints` of the core group,
    /// or `rbac.authorization.k8s.io/v1 clusterrolebindings`.
    pub open spec fn is_resource(self, r: ResourceRef) -> bool {
        match self {
            ListKind::Endpoints => r.group is None && r.version@ == "v1"@ && r.plural@ == "endpoints"@ && r.namespaced,
            ListKind::ClusterRoleBindings => opt_view(r.group) == Some("rbac.authorization.k8s.io"@) && r.version@ == "v1"@
                && r.plural@ == "clusterrolebindings"@ && !r.namespaced,
        }
    }

    /// The kind's API resource.
    pub fn resource_ref(self) -> (r: ResourceRef)
        ensures
            self.is_resource(r),
    {
        match self {
            ListKind::Endpoints => ResourceRef::core_api("v1", "endpoints"),
            ListKind::ClusterRoleBindings => ResourceRef::grouped("rbac.authorization.k8s.io", "v1", "clusterrolebindings").cluster_scoped(),
        }
    }

    /// Whether a request kind lists this kind.
    pub open spec fn load_kind_matches(self, kind: ResourceLoadKind) -> bool {
        match (self, kind) {
            (ListKind::Endpoints, ResourceLoadKind::Endpoints { .. }) => true,
            (ListKind::ClusterRoleBindings, ResourceLoadKind::ClusterRoleBindings) => true,
            _ => false,
        }
    }

    /// The namespace a request kind lists, if it carries one.
    pub open spec fn kind_namespace(kind: ResourceLoadKind) -> Option<Seq<char>> {
        match kind {
            ResourceLoadKind::Endpoints { namespace } => opt_view(namespace),
            _ => None,
        }
    }

    /// The request kind that lists this kind.
    pub fn load_kind(self, namespace: Option<String>) -> (r: ResourceLoadKind)
        ensures
            self.load_kind_matches(r),
            self.namespaced_spec() ==> Self::kind_namespace(r) == opt_view(namespace),
    {
        match self {
            ListKind::Endpoints => ResourceLoadKind::Endpoints { namespace },
            ListKind::ClusterRoleBindings => ResourceLoadKind::ClusterRoleBindings,
        }
    }

    /// Whether a request kind lists this kind.
    pub fn matches_load_kind(self, kind: &ResourceLoadKind) -> (r: bool)
        ensures
            r == self.load_kind_matches(*kind),
    {
        match (self, kind) {
            (ListKind::Endpoints, ResourceLoadKind::Endpoints { .. }) => true,
            (ListKind::ClusterRoleBindings, ResourceLoadKind::ClusterRoleBindings) => true,
            _ => false,
        }
    }
}

/// A row of a list panel.
pub struct ListRow {
    pub key: String,
    pub name: String,
    pub namespace: String,
    pub namespaced: bool,
    pub age: String,
    pub raw: JsonValue,
}

/// What a list row shows.
pub ghost struct ListRowView {
    pub key: Seq<char>,
    pub name: Seq<char>,
    pub namespace: Seq<char>,
    pub namespaced: bool,
    pub age: Seq<char>,
    pub raw: JsonValue,
}

impl View for ListRow {
    type V = ListRowView;

    open spec fn view(&self) -> ListRowView {
        ListRowView {
            key: self.key@,
            name: self.name@,
            namespace: self.namespace@,
            namespaced: self.namespaced,
            age: self.age@,
            raw: self.raw,
        }
    }
}

impl TableRow for ListRow {
    open spec fn key_of(v: ListRowView) -> Seq<char> {
        v.key
    }

    open spec fn ordered_before(a: ListRowView, b: ListRowView) -> bool {
        if a.namespaced {
            namespace_name_before(a.namespace, a.name, b.namespace, b.name)
        } else {
            text_lt(a.name, b.name)
        }
    }

    fn row_key(&self) -> (r: &str) {
        self.key.as_str()
    }

    fn before(&self, other: &Self) -> (r: bool) {
        if self.namespaced {
            namespace_name_less(self.namespace.as_str(), self.name.as_str(), other.namespace.as_str(), other.name.as_str())
        } else {
            text_less(self.name.as_str(), other.name.as_str())
        }
    }
}

impl PanelRow for ListRow {
    open spec fn namespace_of(v: ListRowView) -> Option<Seq<char>> {
        namespace_value_spec(v.namespace)
    }

    open spec fn name_of(v: ListRowView) -> Seq<char> {
        v.name
    }

    open spec fn matches_needle(v: ListRowView, needle: Seq<char>) -> bool {
        needle.len() == 0 || field_matches(v.name, needle) || field_matches(v.namespace, needle)
    }

    proof fn lemma_empty_needle_matches(v: ListRowView) {
    }

    fn target(&self) -> (r: ResourceRowTarget) {
        ResourceRowTarget { key: self.key.clone(), namespace: namespace_value(self.namespace.as_str()), name: self.name.clone() }
    }

    fn matches(&self, needle: &str) -> (r: bool) {
        crate::resource_panel::components::char_count(needle) == 0
            || field_has(self.name.as_str(), needle)
            || field_has(self.namespace.as_str(), needle)
    }
}

/// The row a listed object of `kind` is shown as, at time `now`.
pub open spec fn list_row_spec(kind: ListKind, s: ResourceSummary, now: int) -> ListRowView {
    let name = summary_name(s);
    let namespace = summary_namespace(s);
    ListRowView {
        key: if kind.namespaced_spec() { slash_key(namespace, name) } else { name },
        name,
        namespace,
        namespaced: kind.namespaced_spec(),
        age: age_spec(s.raw, now),
        raw: s.raw,
    }
}

/// The row a listed object of `kind` is shown as, at time `now`.
pub fn list_row_from_summary(kind: ListKind, summary: ResourceSummary, now: i64) -> (r: ListRow)
    ensures
        r@ == list_row_spec(kind, summary, now as int),
{
    let name = name_of_summary(&summary);
    let namespace = namespace_of_summary(&summary);
    let age = age_text(&summary.raw, now);
    let key = if kind.is_namespaced() {
        slash_join(namespace.as_str(), name.as_str())
    } else {
        name.clone()
    };
    ListRow { key, name, namespace, namespaced: kind.is_namespaced(), age, raw: summary.raw }
}

/// The rows of a list of `kind`, in table order.
pub open spec fn list_rows_spec(kind: ListKind, items: Seq<ResourceSummary>, now: int) -> Seq<ListRowView> {
    sort_views::<ListRow>(items.map_values(|s: ResourceSummary| list_row_spec(kind, s, now)))
}

impl ListKind {
    /// The rows of a list, sorted by namespace and name for namespaced
    /// kinds, by name otherwise.
    pub fn rows_from_list(self, items: Vec<ResourceSummary>, now: i64) -> (r: Vec<ListRow>)
        ensures
            views(r@) == list_rows_spec(self, items@, now as int),
    {
        let ghost all = items@.map_values(|s: ResourceSummary| list_row_spec(self, s, now as int));
        let mut src = items;
        let mut rows: Vec<ListRow> = Vec::new();
        let mut k: usize = 0;
        assert(all.len() == src.len());
        assert forall|j: int| 0 <= j < src@.len() implies list_row_spec(self, #[trigger] src@[j], now as int) == all[0 + j] by {}
        while src.len() > 0
            invariant
                k <= all.len(),
                all.len() <= usize::MAX,
                src@.len() == all.len() - k,
                forall|j: int| 0 <= j < src@.len() ==> list_row_spec(self, #[trigger] src@[j], now as int) == all[k + j],
                views(rows@) == all.take(k as int),
            decreases src@.len(),
        {
            let ghost before = src@;
            let item = src.remove(0);
            assert(list_row_spec(self, item, now as int) == all[k as int]);
            assert forall|j: int| 0 <= j < src@.len() implies list_row_spec(self, #[trigger] src@[j], now as int) == all[k + 1 + j] by {
                assert(src@[j] == before[j + 1]);
            }
            let row = list_row_from_summary(self, item, now);
            let ghost rows_before = rows@;
            rows.push(row);
            assert(views(rows@) =~= views(rows_before).push(row@));
            assert(views(rows@) =~= all.take(k + 1));
            k = k + 1;
        }
        assert(all.take(k as int) =~= all);
        sort_rows(rows)
    }
}

/// The key of the row a delete removes: only a delete of the kind's
/// resource has one.
pub open spec fn deleted_list_key(kind: ListKind, action: ResourceActionKind) -> Option<Seq<char>> {
    match action {
        ResourceActionKind::DeleteResource { resource, namespace, name } =>
            if kind.is_resource(resource) {
                Some(config_key_spec(or_empty(opt_view(namespace)), name@))
            } else {
                None
            },
        _ => None,
    }
}

/// The keys of the rows a batch delete removes.
pub open spec fn batch_list_keys(targets: Seq<ResourceDeleteTarget>) -> Seq<Seq<char>> {
    targets.map_values(|t: ResourceDeleteTarget| config_key_spec(or_empty(opt_view(t.namespace)), t.name@))
}

/// What an action's result means for a list table at time `now`.
pub open spec fn list_action_effect(
    kind: ListKind,
    action: ResourceActionKind,
    result: Result<ResourceActionOutcome, String>,
    now: int,
) -> ActionEffect<ListRowView> {
    match result {
        Ok(ResourceActionOutcome::Applied(summary)) => ActionEffect::Applied(list_row_spec(kind, summary, now)),
        Ok(ResourceActionOutcome::Deleted) => ActionEffect::Deleted(deleted_list_key(kind, action)),
        Ok(ResourceActionOutcome::BatchDeleted(targets)) => ActionEffect::BatchDeleted(batch_list_keys(targets@)),
        Ok(ResourceActionOutcome::Patched(_)) => ActionEffect::Unchanged,
        Ok(ResourceActionOutcome::Evicted) => ActionEffect::Unchanged,
        Err(e) => ActionEffect::Failed(e),
    }
}

/// The keys of the rows a batch delete removes.
pub fn list_batch_keys(targets: &Vec<ResourceDeleteTarget>) -> (r: Vec<String>)
    ensures
        texts_view(r@) == batch_list_keys(targets@),
{
    let mut out: Vec<String> = Vec::new();
    let mut i: usize = 0;
    while i < targets.len()
        invariant
            i <= targets@.len(),
            texts_view(out@) == batch_list_keys(targets@).take(i as int),
        decreases targets@.len() - i,
    {
        let t = &targets[i];
        let key = config_key(text_or_empty(&t.namespace), t.name.as_str());
        let ghost before = out@;
        out.push(key);
        assert(texts_view(out@) =~= texts_view(before).push(key@));
        assert(texts_view(out@) =~= batch_list_keys(targets@).take(i + 1));
        i = i + 1;
    }
    assert(batch_list_keys(targets@).take(i as int) =~= batch_list_keys(targets@));
    out
}

/// The action result as a list panel takes it.
pub fn list_action_result(
    kind: ListKind,
    action: ResourceActionKind,
    result: Result<ResourceActionOutcome, String>,
    now: i64,
) -> (r: ActionResult<ListRow>)
    ensures
        crate::resource_panel::state::action_effect::<ListRow>(r) == list_action_effect(kind, action, result, now as int),
{
    match result {
        Ok(ResourceActionOutcome::Applied(summary)) => ActionResult::Applied(list_row_from_summary(kind, summary, now)),
        Ok(ResourceActionOutcome::Deleted) => {
            match action {
                ResourceActionKind::DeleteResource { resource, namespace, name } => {
                    let own = kind.resource_ref();
                    if resource.same(&own) {
                        ActionResult::Deleted(Some(config_key(text_or_empty(&namespace), name.as_str())))
                    } else {
                        ActionResult::Deleted(None)
                    }
                },
                _ => ActionResult::Deleted(None),
            }
        },
        Ok(ResourceActionOutcome::BatchDeleted(targets)) => ActionResult::BatchDeleted(list_batch_keys(&targets)),
        Ok(ResourceActionOutcome::Patched(_)) => ActionResult::Unchanged,
        Ok(ResourceActionOutcome::Evicted) => ActionResult::Unchanged,
        Err(e) => ActionResult::Failed(e),
    }
}

/// A list panel: the kind it shows and its state.
pub struct ListResourcePanel {
    pub kind: ListKind,
    pub state: PanelState<ListRow>,
    pub view_dialog: Option<ManifestViewDialog>,
}

/// What an answer does to a list panel's state at time `now`:
/// namespace answers update the namespace list whoever asked; answers for
/// the panel's kind go through the request checks; action results through
/// the action checks; anything else changes nothing.
pub open spec fn list_event_post(
    kind: ListKind,
    old: PanelState<ListRow>,
    new: PanelState<ListRow>,
    event: ResourceUiEvent,
    now: int,
) -> bool {
    match event {
        ResourceUiEvent::ResourcesLoaded { request, result } =>
            if request.kind == ResourceLoadKind::Namespaces {
                PanelState::<ListRow>::namespace_load_post(old, new, request.request_id, list_names_result(result))
            } else if kind.load_kind_matches(request.kind) {
                PanelState::<ListRow>::rows_load_post(old, new, request.request_id, match result {
                    Ok(list) => Ok(list_rows_spec(kind, list.items@, now)),
                    Err(e) => Err(e),
                })
            } else {
                new == old
            },
        ResourceUiEvent::ResourceWatchUpdated { request, result } =>
            if request.kind == ResourceLoadKind::Namespaces {
                PanelState::<ListRow>::namespace_watch_post(old, new, request.request_id, watch_names_result(result))
            } else if kind.load_kind_matches(request.kind) {
                PanelState::<ListRow>::rows_watch_post(old, new, request.request_id, match result {
                    Ok(ResourceEvent::Snapshot(list)) => Ok(Some(list_rows_spec(kind, list.items@, now))),
                    Ok(_) => Ok(None),
                    Err(e) => Err(e),
                })
            } else {
                new == old
            },
        ResourceUiEvent::ResourceActionCompleted { request, result } =>
            PanelState::<ListRow>::action_post(old, new, request.request_id, list_action_effect(kind, request.kind, result, now)),
        _ => new == old,
    }
}

impl ListResourcePanel {
    /// The panel's invariant.
    pub open spec fn wf(&self) -> bool {
        self.state.wf()
    }

    /// An empty panel for `kind`.
    pub fn new(kind: ListKind) -> (r: ListResourcePanel)
        ensures
            r.wf(),
            r.kind == kind,
            r.state.is_initial(),
            r.state.next_request_id == 0,
            r.state.last_cluster_id is None,
            r.view_dialog is None,
    {
        ListResourcePanel { kind, state: PanelState::new(), view_dialog: None }
    }

    /// Takes an answer; `now` (seconds since the Unix epoch) dates the ages
    /// of new rows.
    pub fn apply_event(&mut self, event: ResourceUiEvent, now: i64)
        requires
            old(self).wf(),
        ensures
            final(self).wf(),
            final(self).kind == old(self).kind,
            list_event_post(old(self).kind, old(self).state, final(self).state, event, now as int),
            final(self).view_dialog == old(self).view_dialog,
    {
        let kind = self.kind;
        match event {
            ResourceUiEvent::ResourcesLoaded { request, result } => {
                let id = request.request_id;
                let is_namespaces = match request.kind {
                    ResourceLoadKind::Namespaces => true,
                    _ => false,
                };
                if is_namespaces {
                    self.state.apply_namespace_load(id, names_of_load(result));
                } else if kind.matches_load_kind(&request.kind) {
                    let rows = match result {
                        Ok(list) => Ok(kind.rows_from_list(list.items, now)),
                        Err(e) => Err(e),
                    };
                    self.state.apply_rows_load(id, rows);
                }
            },
            ResourceUiEvent::ResourceWatchUpdated { request, result } => {
                let id = request.request_id;
                let is_namespaces = match request.kind {
                    ResourceLoadKind::Namespaces => true,
                    _ => false,
                };
                if is_namespaces {
                    self.state.apply_namespace_watch(id, names_of_watch(result));
                } else if kind.matches_load_kind(&request.kind) {
                    let rows = match result {
                        Ok(ResourceEvent::Snapshot(list)) => Ok(Some(kind.rows_from_list(list.items, now))),
                        Ok(_) => Ok(None),
                        Err(e) => Err(e),
                    };
                    self.state.apply_rows_watch(id, rows);
                }
            },
            ResourceUiEvent::ResourceActionCompleted { request, result } => {
                let id = request.request_id;
                let outcome = list_action_result(kind, request.kind, result, now);
                self.state.apply_action_result(id, outcome);
            },
            _ => {},
        }
    }

    /// Forgets the previous cluster's rows, requests and dialogs when shown
    /// for another cluster.
    pub fn reset_for_cluster_change(&mut self, cluster_id: &ClusterId)
        requires
            old(self).wf(),
        ensures
            final(self).wf(),
            crate::resource_panel::state::cluster_view(old(self).state.last_cluster_id) == Some(cluster_id.id@)
                ==> *final(self) == *old(self),
            crate::resource_panel::state::cluster_view(old(self).state.last_cluster_id) != Some(cluster_id.id@) ==> {
                &&& final(self).state.is_initial()
                &&& crate::resource_panel::state::cluster_view(final(self).state.last_cluster_id) == Some(cluster_id.id@)
                &&& final(self).state.next_request_id == old(self).state.next_request_id
                &&& final(self).view_dialog is None
                &&& final(self).kind == old(self).kind
            },
    {
        let same = match &self.state.last_cluster_id {
            Some(last) => last.same(cluster_id),
            None => false,
        };
        if same {
            return;
        }
        self.state.reset_for_cluster_change(cluster_id);
        self.view_dialog = None;
    }

    /// A list request for the panel's kind (in the selected namespace for
    /// namespaced kinds); it becomes the current one.
    pub fn request_resources(&mut self, cluster_id: ClusterId) -> (r: ResourceLoadRequest)
        requires
            old(self).wf(),
            old(self).state.next_request_id < u64::MAX,
        ensures
            final(self).wf(),
            r.request_id == old(self).state.next_request_id + 1,
            r.cluster_id == cluster_id,
            old(self).kind.load_kind_matches(r.kind),
            old(self).kind.namespaced_spec() ==> ListKind::kind_namespace(r.kind) == opt_view(old(self).state.namespace_filter),
            final(self).state.next_request_id == r.request_id,
            final(self).state.row_request_id == Some(r.request_id),
            final(self).state.row_status == crate::resource_panel::LoadStatus::Loading,
            final(self).state.rows == old(self).state.rows,
            final(self).state.selected_rows == old(self).state.selected_rows,
            final(self).kind == old(self).kind,
            final(self).view_dialog == old(self).view_dialog,
    {
        let id = self.state.begin_row_load();
        ResourceLoadRequest { request_id: id, cluster_id, kind: self.kind.load_kind(copy_opt_text(&self.state.namespace_filter)) }
    }

    /// The namespace watch; it becomes the current one.
    pub fn request_namespace_watch(&mut self, cluster_id: ClusterId) -> (r: ResourceWatchRequest)
        requires
            old(self).wf(),
            old(self).state.next_request_id < u64::MAX,
        ensures
            final(self).wf(),
            r.request_id == old(self).state.next_request_id + 1,
            r.cluster_id == cluster_id,
            r.kind == ResourceLoadKind::Namespaces,
            final(self).state.next_request_id == r.request_id,
            final(self).state.namespace_watch_request_id == Some(r.request_id),
            final(self).state.namespace_status == crate::resource_panel::LoadStatus::Loading,
            final(self).state.same_rows(&old(self).state),
            final(self).kind == old(self).kind,
            final(self).view_dialog == old(self).view_dialog,
    {
        let id = self.state.begin_namespace_watch();
        ResourceWatchRequest { request_id: id, cluster_id, kind: ResourceLoadKind::Namespaces }
    }

    /// The watch for the panel's kind; it becomes the current one.
    pub fn request_resource_watch(&mut self, cluster_id: ClusterId) -> (r: ResourceWatchRequest)
        requires
            old(self).wf(),
            old(self).state.next_request_id < u64::MAX,
        ensures
            final(self).wf(),
            r.request_id == old(self).state.next_request_id + 1,
            r.cluster_id == cluster_id,
            old(self).kind.load_kind_matches(r.kind),
            old(self).kind.namespaced_spec() ==> ListKind::kind_namespace(r.kind) == opt_view(old(self).state.namespace_filter),
            final(self).state.next_request_id == r.request_id,
            final(self).state.row_watch_request_id == Some(r.request_id),
            final(self).state.row_status == crate::resource_panel::LoadStatus::Loading,
            final(self).state.rows == old(self).state.rows,
            final(self).state.selected_rows == old(self).state.selected_rows,
            final(self).kind == old(self).kind,
            final(self).view_dialog == old(self).view_dialog,
    {
        let id = self.state.begin_row_watch();
        ResourceWatchRequest { request_id: id, cluster_id, kind: self.kind.load_kind(copy_opt_text(&self.state.namespace_filter)) }
    }

    /// The delete targets of the selected rows, in row order.
    pub fn selected_delete_targets(&self) -> (r: Vec<ResourceDeleteTarget>)
        ensures
            crate::resource_panel::components::delete_targets_view(r@)
                == crate::resource_panel::components::selected_targets_spec(
                    crate::resource_panel::state::row_targets::<ListRow>(views(self.state.rows@)),
                    self.state.selected_rows@,
                ),
    {
        self.state.selected_delete_targets()
    }
}

/// The endpoints panel.
pub struct EndpointsResourcePanel {
    pub inner: ListResourcePanel,
}

impl EndpointsResourcePanel {
    /// An empty endpoints panel.
    pub fn new() -> (r: EndpointsResourcePanel)
        ensures
            r.inner.wf(),
            r.inner.kind == ListKind::Endpoints,
            r.inner.state.is_initial(),
            r.inner.state.next_request_id == 0,
            r.inner.state.last_cluster_id is None,
            r.inner.view_dialog is None,
    {
        EndpointsResourcePanel { inner: ListResourcePanel::new(ListKind::Endpoints) }
    }

    /// Takes an answer, as the list panel inside does.
    pub fn apply_event(&mut self, event: ResourceUiEvent, now: i64)
        requires
            old(self).inner.wf(),
        ensures
            final(self).inner.wf(),
            final(self).inner.kind == old(self).inner.kind,
            list_event_post(old(self).inner.kind, old(self).inner.state, final(self).inner.state, event, now as int),
            final(self).inner.view_dialog == old(self).inner.view_dialog,
    {
        self.inner.apply_event(event, now);
    }
}

/// The cluster role bindings panel.
pub struct ClusterRoleBindingResourcePanel {
    pub inner: ListResourcePanel,
}

impl ClusterRoleBindingResourcePanel {
    /// An empty cluster role bindings panel.
    pub fn new() -> (r: ClusterRoleBindingResourcePanel)
        ensures
            r.inner.wf(),
            r.inner.kind == ListKind::ClusterRoleBindings,
            r.inner.state.is_initial(),
            r.inner.state.next_request_id == 0,
            r.inner.state.last_cluster_id is None,
            r.inner.view_dialog is None,
    {
        ClusterRoleBindingResourcePanel { inner: ListResourcePanel::new(ListKind::ClusterRoleBindings) }
    }

    /// Takes an answer, as the list panel inside does.
    pub fn apply_event(&mut self, event: ResourceUiEvent, now: i64)
        requires
            old(self).inner.wf(),
        ensures
            final(self).inner.wf(),
            final(self).inner.kind == old(self).inner.kind,
            list_event_post(old(self).inner.kind, old(self).inner.state, final(self).inner.state, event, now as int),
            final(self).inner.view_dialog == old(self).inner.view_dialog,
    {
        self.inner.apply_event(event, now);
    }
}


/// Every list panel list is shown in table order, and shows each listed object
/// exactly once.
pub proof fn law_list_rows_in_table_order(kind: ListKind, items: Seq<ResourceSummary>, now: int)
    ensures
        crate::resource_panel::table::in_table_order::<ListRow>(list_rows_spec(kind, items, now)),
        list_rows_spec(kind, items, now).to_multiset() == items.map_values(|s: ResourceSummary| list_row_spec(kind, s, now)).to_multiset(),
{
    let all = items.map_values(|s: ResourceSummary| list_row_spec(kind, s, now));
    let p = |v: ListRowView| v.namespaced == kind.namespaced_spec();
    assert forall|a: ListRowView| p(a) implies !ListRow::ordered_before(a, a) by {
        crate::resource_panel::table::lemma_text_lt_irreflexive(a.name);
        crate::resource_panel::job::lemma_namespace_name_irreflexive(a.namespace, a.name);
    }
    assert forall|a: ListRowView, b: ListRowView, c: ListRowView|
        p(a) && p(b) && p(c) && #[trigger] ListRow::ordered_before(a, b) && #[trigger] ListRow::ordered_before(b, c)
        implies ListRow::ordered_before(a, c) by {
        if a.namespaced {
            crate::resource_panel::job::lemma_namespace_name_transitive(a.namespace, a.name, b.namespace, b.name, c.namespace, c.name);
        } else {
            crate::resource_panel::table::lemma_text_lt_transitive(a.name, b.name, c.name);
        }
    }
    assert forall|i: int| 0 <= i < all.len() implies p(#[trigger] all[i]) by {}
    crate::resource_panel::table::lemma_sort_views_in_order::<ListRow>(all, p);
    crate::resource_panel::state::lemma_sort_views_permutes::<ListRow>(all);
}
/// A search finds a row by any of its name and namespace: when the search text,
/// trimmed and lower-cased, occurs in one of them lower-cased, the row
/// matches; and a row matches a non-blank search only that way.
pub proof fn law_list_search_looks_at_name_and_namespace(v: ListRowView, search: Seq<char>)
    ensures
        ({
            let needle = crate::text::lowercase(crate::text::trim_seq(search));
            &&& crate::text::has_infix(crate::text::lowercase(v.name), needle) ==> ListRow::matches_needle(v, needle)
            &&& crate::text::has_infix(crate::text::lowercase(v.namespace), needle) ==> ListRow::matches_needle(v, needle)
            &&& ListRow::matches_needle(v, needle) && needle.len() > 0 ==> {
                ||| crate::text::has_infix(crate::text::lowercase(v.name), needle)
                ||| crate::text::has_infix(crate::text::lowercase(v.namespace), needle)
            }
        }),
{
}
/// An endpoints or cluster role binding row is named by its manifest;
/// endpoints, which live in namespaces, are keyed `namespace/name`, and
/// cluster role bindings by their name alone.
pub proof fn law_list_row_key(kind: ListKind, s: ResourceSummary, now: int)
    ensures
        list_row_spec(kind, s, now).name == summary_name(s),
        list_row_spec(kind, s, now).namespace == summary_namespace(s),
        list_row_spec(kind, s, now).age == age_spec(s.raw, now),
        kind == ListKind::Endpoints ==> list_row_spec(kind, s, now).key == summary_namespace(s) + "/"@ + summary_name(s),
        kind == ListKind::ClusterRoleBindings ==> list_row_spec(kind, s, now).key == summary_name(s),
{
    reveal_strlit("/");
}
} // verus!
