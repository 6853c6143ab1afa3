//! The Deployments panel: one row per deployment, with replica counts,
//! strategy, selector, images and conditions.
use vstd::prelude::*;
use crate::resource_panel::state::{keys_distinct, law_upsert_keeps_table, row_keys};
use crate::resource_panel::table::upsert_views;
use crate::resource_panel::describe::{DeploymentDescribeDialog, deployment_describe_from_row, deployment_describe_ok};
use crate::json::{JsonValue, json_as_str};
use crate::resource_panel::{
    ClusterId, ResourceDeleteTarget, ResourceEvent, ResourceList, ResourceLoadKind,
    ResourceLoadRequest, ResourceRef, ResourceSummary, ResourceUiEvent, ResourceWatchRequest,
    opt_view,
};
use crate::resource_panel::components::{
    ManifestViewDialog, ResourceMetadata, ResourceRowTarget, age_spec, age_text,
    condition_summary, condition_summary_spec, container_images, container_images_spec, field_has,
    field_matches, member, member_of, name_of_summary, namespace_of_summary, namespace_value,
    namespace_value_spec, or_na, replica_ratio, replica_ratio_spec, selector_label_of,
    selector_label_spec, slash_join, slash_key, summary_name, summary_namespace, text_of,
    text_or_na, u64_of,
};
use crate::resource_panel::job::{namespace_name_before, namespace_name_less, section_u64};
use crate::resource_panel::state::{
    PanelRow, PanelState, list_names_result, names_of_load, names_of_watch, watch_names_result,
};
use crate::resource_panel::table::{TableRow, sort_rows, sort_views, views};


verus! {

/// A row of the Deployments table.
pub struct DeploymentRow {
    pub key: String,
    pub name: String,
    pub namespace: String,
    pub ready: String,
    pub up_to_date: String,
    pub available: String,
    pub replicas: String,
    pub strategy: String,
    pub selector: String,
    pub images: String,
    pub conditions: String,
    pub age: String,
    pub raw: JsonValue,
}

/// What a deployment row shows.
pub ghost struct DeploymentRowView {
    pub key: Seq<char>,
    pub name: Seq<char>,
    pub namespace: Seq<char>,
    pub ready: Seq<char>,
    pub up_to_date: Seq<char>,
    pub available: Seq<char>,
    pub replicas: Seq<char>,
    pub strategy: Seq<char>,
    pub selector: Seq<char>,
    pub images: Seq<char>,
    pub conditions: Seq<char>,
    pub age: Seq<char>,
    pub raw: JsonValue,
}

impl View for DeploymentRow {
    type V = DeploymentRowView;

    open spec fn view(&self) -> DeploymentRowView {
        DeploymentRowView {
            key: self.key@,
            name: self.name@,
            namespace: self.namespace@,
            ready: self.ready@,
            up_to_date: self.up_to_date@,
            available: self.available@,
            replicas: self.replicas@,
            strategy: self.strategy@,
            selector: self.selector@,
            images: self.images@,
            conditions: self.conditions@,
            age: self.age@,
            raw: self.raw,
        }
    }
}

impl TableRow for DeploymentRow {
    open spec fn key_of(v: DeploymentRowView) -> Seq<char> {
        v.key
    }

    open spec fn ordered_before(a: DeploymentRowView, b: DeploymentRowView) -> bool {
        namespace_name_before(a.namespace, a.name, b.namespace, b.name)
    }

    fn row_key(&self) -> (r: &str) {
        self.key.as_str()
    }

    fn before(&self, other: &Self) -> (r: bool) {
        namespace_name_less(self.namespace.as_str(), self.name.as_str(), other.namespace.as_str(), other.name.as_str())
    }
}

impl PanelRow for DeploymentRow {
    open spec fn namespace_of(v: DeploymentRowView) -> Option<Seq<char>> {
        namespace_value_spec(v.namespace)
    }

    open spec fn name_of(v: DeploymentRowView) -> Seq<char> {
        v.name
    }

    open spec fn matches_needle(v: DeploymentRowView, needle: Seq<char>) -> bool {
        ||| needle.len() == 0
        ||| field_matches(v.name, needle)
        ||| field_matches(v.namespace, needle)
        ||| field_matches(v.selector, needle)
        ||| field_matches(v.images, needle)
        ||| field_matches(v.conditions, needle)
    }

    proof fn lemma_empty_needle_matches(v: DeploymentRowView) {
    }

    fn target(&self) -> (r: ResourceRowTarget) {
        ResourceRowTarget { key: self.key.clone(), namespace: namespace_value(self.namespace.as_str()), name: self.name.clone() }
    }

    fn matches(&self, needle: &str) -> (r: bool) {
        crate::resource_panel::components::char_count(needle) == 0
            || field_has(self.name.as_str(), needle)
            || field_has(self.namespace.as_str(), needle)
            || field_has(self.selector.as_str(), needle)
            || field_has(self.images.as_str(), needle)
            || field_has(self.conditions.as_str(), needle)
    }
}

/// `namespace/name`, the key of a deployment row.
pub fn deployment_key(namespace: &str, name: &str) -> (r: String)
    ensures
        r@ == slash_key(namespace@, name@),
{
    slash_join(namespace, name)
}

/// A replica count of the deployment's status, 0 when missing.
pub open spec fn replica_count(raw: JsonValue, key: Seq<char>) -> u64 {
    match section_u64(raw, "status"@, key) {
        Some(n) => n,
        None => 0,
    }
}

/// The row a listed deployment is shown as, at time `now`.
pub open spec fn deployment_row_spec(s: ResourceSummary, now: int) -> DeploymentRowView {
    let raw = s.raw;
    let name = summary_name(s);
    let namespace = summary_namespace(s);
    let desired = section_u64(raw, "spec"@, "replicas"@);
    DeploymentRowView {
        key: slash_key(namespace, name),
        name,
        namespace,
        ready: replica_ratio_spec(replica_count(raw, "readyReplicas"@), desired),
        up_to_date: replica_ratio_spec(replica_count(raw, "updatedReplicas"@), desired),
        available: replica_ratio_spec(replica_count(raw, "availableReplicas"@), desired),
        replicas: replica_ratio_spec(replica_count(raw, "replicas"@), desired),
        strategy: or_na(json_as_str(member(member(member(Some(raw), "spec"@), "strategy"@), "type"@))),
        selector: selector_label_spec(member(member(member(Some(raw), "spec"@), "selector"@), "matchLabels"@)),
        images: container_images_spec(raw),
        conditions: condition_summary_spec(raw),
        age: age_spec(raw, now),
        raw,
    }
}

impl DeploymentRow {
    /// The row a listed deployment is shown as, at time `now` (seconds since
    /// the Unix epoch, for the age).
    pub fn from_summary(summary: ResourceSummary, now: i64) -> (r: DeploymentRow)
        ensures
            r@ == deployment_row_spec(summary, now as int),
    {
        let name = name_of_summary(&summary);
        let namespace = namespace_of_summary(&summary);
        let raw = &summary.raw;
        let spec = raw.get("spec");
        let status = raw.get("status");
        let desired = u64_of(member_of(spec, "replicas"));
        let ready = match u64_of(member_of(status, "readyReplicas")) {
            Some(n) => n,
            None => 0,
        };
        let updated = match u64_of(member_of(status, "updatedReplicas")) {
            Some(n) => n,
            None => 0,
        };
        let available = match u64_of(member_of(status, "availableReplicas")) {
            Some(n) => n,
            None => 0,
        };
        let current = match u64_of(member_of(status, "replicas")) {
            Some(n) => n,
            None => 0,
        };
        let key = deployment_key(namespace.as_str(), name.as_str());
        let strategy = text_or_na(text_of(member_of(member_of(spec, "strategy"), "type")));
        let selector = selector_label_of(member_of(member_of(spec, "selector"), "matchLabels"));
        let images = container_images(raw);
        let conditions = condition_summary(raw);
        let age = age_text(raw, now);
        DeploymentRow {
            key,
            name,
            namespace,
            ready: replica_ratio(ready, desired),
            up_to_date: replica_ratio(updated, desired),
            available: replica_ratio(available, desired),
            replicas: replica_ratio(current, desired),
            strategy,
            selector,
            images,
            conditions,
            age,
            raw: summary.raw,
        }
    }
}

/// The rows of a deployment list in table order.
pub open spec fn deployment_rows_spec(items: Seq<ResourceSummary>, now: int) -> Seq<DeploymentRowView> {
    sort_views::<DeploymentRow>(items.map_values(|s: ResourceSummary| deployment_row_spec(s, now)))
}

/// The rows of a deployment list, sorted by namespace and then name.
pub fn deployment_rows_from_list(items: Vec<ResourceSummary>, now: i64) -> (r: Vec<DeploymentRow>)
    ensures
        views(r@) == deployment_rows_spec(items@, now as int),
{
    let ghost all = items@.map_values(|s: ResourceSummary| deployment_row_spec(s, now as int));
    let mut src = items;
    let mut rows: Vec<DeploymentRow> = Vec::new();
    let mut k: usize = 0;
    assert(all.len() == src.len());
    assert forall|j: int| 0 <= j < src@.len() implies deployment_row_spec(#[trigger] src@[j], now as int) == all[0 + j] by {}
    while src.len() > 0
        invariant
            k <= all.len(),
            all.len() <= usize::MAX,
            src@.len() == all.len() - k,
            forall|j: int| 0 <= j < src@.len() ==> deployment_row_spec(#[trigger] src@[j], now as int) == all[k + j],
            views(rows@) == all.take(k as int),
        decreases src@.len(),
    {
        let ghost before = src@;
        let item = src.remove(0);
        assert(deployment_row_spec(item, now as int) == all[k as int]);
        assert forall|j: int| 0 <= j < src@.len() implies deployment_row_spec(#[trigger] src@[j], now as int) == all[k + 1 + j] by {
            assert(src@[j] == before[j + 1]);
        }
        let row = DeploymentRow::from_summary(item, now);
        let ghost rows_before = rows@;
        rows.push(row);
        assert(views(rows@) =~= views(rows_before).push(row@));
        assert(views(rows@) =~= all.take(k + 1));
        k = k + 1;
    }
    assert(all.take(k as int) =~= all);
    sort_rows(rows)
}

/// The Deployments panel.
pub struct DeploymentResourcePanel {
    pub state: PanelState<DeploymentRow>,
    pub view_dialog: Option<ManifestViewDialog>,
    pub describe_dialog: Option<DeploymentDescribeDialog>,
}

/// The deployment rows of a list answer at time `now`.
pub open spec fn deployment_load_rows(result: Result<ResourceList, String>, now: int) -> Result<Seq<DeploymentRowView>, String> {
    match result {
        Ok(list) => Ok(deployment_rows_spec(list.items@, now)),
        Err(e) => Err(e),
    }
}

/// The deployment rows of a watch answer at time `now`: only a snapshot has rows.
pub open spec fn deployment_watch_rows(result: Result<ResourceEvent, String>, now: int) -> Result<Option<Seq<DeploymentRowView>>, String> {
    match result {
        Ok(ResourceEvent::Snapshot(list)) => Ok(Some(deployment_rows_spec(list.items@, now))),
        Ok(_) => Ok(None),
        Err(e) => Err(e),
    }
}

/// What an answer does to the Deployments panel's state at time `now`: namespace
/// answers update the namespace list whoever asked; deployment answers go through
/// the request checks; anything else changes nothing.
pub open spec fn deployment_event_post(old: PanelState<DeploymentRow>, new: PanelState<DeploymentRow>, event: ResourceUiEvent, now: int) -> bool {
    match event {
        ResourceUiEvent::ResourcesLoaded { request, result } => match request.kind {
            ResourceLoadKind::Namespaces =>
                PanelState::<DeploymentRow>::namespace_load_post(old, new, request.request_id, list_names_result(result)),
            ResourceLoadKind::Deployments { .. } =>
                PanelState::<DeploymentRow>::rows_load_post(old, new, request.request_id, deployment_load_rows(result, now)),
            _ => new == old,
        },
        ResourceUiEvent::ResourceWatchUpdated { request, result } => match request.kind {
            ResourceLoadKind::Namespaces =>
                PanelState::<DeploymentRow>::namespace_watch_post(old, new, request.request_id, watch_names_result(result)),
            ResourceLoadKind::Deployments { .. } =>
                PanelState::<DeploymentRow>::rows_watch_post(old, new, request.request_id, deployment_watch_rows(result, now)),
            _ => new == old,
        },
        _ => new == old,
    }
}

impl DeploymentResourcePanel {
    /// The panel's invariant.
    pub open spec fn wf(&self) -> bool {
        self.state.wf()
    }

    /// An empty panel.
    pub fn new() -> (r: DeploymentResourcePanel)
        ensures
            r.wf(),
            r.state.is_initial(),
            r.state.next_request_id == 0,
            r.state.last_cluster_id is None,
            r.view_dialog is None,
            r.describe_dialog is None,
    {
        DeploymentResourcePanel { state: PanelState::new(), view_dialog: None, describe_dialog: None }
    }

    /// Takes an answer; `now` (seconds since the Unix epoch) dates the ages
    /// of new rows.
    pub fn apply_event(&mut self, event: ResourceUiEvent, now: i64)
        requires
            old(self).wf(),
        ensures
            final(self).wf(),
            deployment_event_post(old(self).state, final(self).state, event, now as int),
            final(self).view_dialog == old(self).view_dialog,
            final(self).describe_dialog == old(self).describe_dialog,
    {
        match event {
            ResourceUiEvent::ResourcesLoaded { request, result } => {
                let id = request.request_id;
                match request.kind {
                    ResourceLoadKind::Namespaces => self.state.apply_namespace_load(id, names_of_load(result)),
                    ResourceLoadKind::Deployments { .. } => {
                        let rows = match result {
                            Ok(list) => Ok(deployment_rows_from_list(list.items, now)),
                            Err(e) => Err(e),
                        };
                        self.state.apply_rows_load(id, rows);
                    },
                    _ => {},
                }
            },
            ResourceUiEvent::ResourceWatchUpdated { request, result } => {
                let id = request.request_id;
                match request.kind {
                    ResourceLoadKind::Namespaces => self.state.apply_namespace_watch(id, names_of_watch(result)),
                    ResourceLoadKind::Deployments { .. } => {
                        let rows = match result {
                            Ok(ResourceEvent::Snapshot(list)) => Ok(Some(deployment_rows_from_list(list.items, now))),
                            Ok(_) => Ok(None),
                            Err(e) => Err(e),
                        };
                        self.state.apply_rows_watch(id, rows);
                    },
                    _ => {},
                }
            },
            _ => {},
        }
    }

    /// Forgets the previous cluster's rows, requests and dialogs when shown
    /// for another cluster.
    pub fn reset_for_cluster_change(&mut self, cluster_id: &ClusterId)
        requires
            old(self).wf(),
        ensures
            final(self).wf(),
            crate::resource_panel::state::cluster_view(old(self).state.last_cluster_id) == Some(cluster_id.id@)
                ==> *final(self) == *old(self),
            crate::resource_panel::state::cluster_view(old(self).state.last_cluster_id) != Some(cluster_id.id@) ==> {
                &&& final(self).state.is_initial()
                &&& crate::resource_panel::state::cluster_view(final(self).state.last_cluster_id) == Some(cluster_id.id@)
                &&& final(self).state.next_request_id == old(self).state.next_request_id
                &&& final(self).view_dialog is None
                &&& final(self).describe_dialog is None
            },
    {
        let same = match &self.state.last_cluster_id {
            Some(last) => last.same(cluster_id),
            None => false,
        };
        if same {
            return;
        }
        self.state.reset_for_cluster_change(cluster_id);
        self.view_dialog = None;
        self.describe_dialog = None;
    }

    /// A deployment list request for the selected namespace; it becomes the
    /// current one.
    pub fn request_deployments(&mut self, cluster_id: ClusterId) -> (r: ResourceLoadRequest)
        requires
            old(self).wf(),
            old(self).state.next_request_id < u64::MAX,
        ensures
            final(self).wf(),
            r.request_id == old(self).state.next_request_id + 1,
            r.cluster_id == cluster_id,
            r.kind matches ResourceLoadKind::Deployments { namespace } && opt_view(namespace) == opt_view(old(self).state.namespace_filter),
            final(self).state.next_request_id == r.request_id,
            final(self).state.row_request_id == Some(r.request_id),
            final(self).state.row_status == crate::resource_panel::LoadStatus::Loading,
            final(self).state.rows == old(self).state.rows,
            final(self).state.selected_rows == old(self).state.selected_rows,
            final(self).view_dialog == old(self).view_dialog,
            final(self).describe_dialog == old(self).describe_dialog,
    {
        let id = self.state.begin_row_load();
        ResourceLoadRequest {
            request_id: id,
            cluster_id,
            kind: ResourceLoadKind::Deployments { namespace: crate::resource_panel::copy_opt_text(&self.state.namespace_filter) },
        }
    }

    /// The namespace watch; it becomes the current one.
    pub fn request_namespace_watch(&mut self, cluster_id: ClusterId) -> (r: ResourceWatchRequest)
        requires
            old(self).wf(),
            old(self).state.next_request_id < u64::MAX,
        ensures
            final(self).wf(),
            r.request_id == old(self).state.next_request_id + 1,
            r.cluster_id == cluster_id,
            r.kind == ResourceLoadKind::Namespaces,
            final(self).state.next_request_id == r.request_id,
            final(self).state.namespace_watch_request_id == Some(r.request_id),
            final(self).state.namespace_status == crate::resource_panel::LoadStatus::Loading,
            final(self).state.same_rows(&old(self).state),
            final(self).view_dialog == old(self).view_dialog,
            final(self).describe_dialog == old(self).describe_dialog,
    {
        let id = self.state.begin_namespace_watch();
        ResourceWatchRequest { request_id: id, cluster_id, kind: ResourceLoadKind::Namespaces }
    }

    /// The deployment watch for the selected namespace; it becomes the current one.
    pub fn request_deployment_watch(&mut self, cluster_id: ClusterId) -> (r: ResourceWatchRequest)
        requires
            old(self).wf(),
            old(self).state.next_request_id < u64::MAX,
        ensures
            final(self).wf(),
            r.request_id == old(self).state.next_request_id + 1,
            r.cluster_id == cluster_id,
            r.kind matches ResourceLoadKind::Deployments { namespace } && opt_view(namespace) == opt_view(old(self).state.namespace_filter),
            final(self).state.next_request_id == r.request_id,
            final(self).state.row_watch_request_id == Some(r.request_id),
            final(self).state.row_status == crate::resource_panel::LoadStatus::Loading,
            final(self).state.rows == old(self).state.rows,
            final(self).state.selected_rows == old(self).state.selected_rows,
            final(self).view_dialog == old(self).view_dialog,
            final(self).describe_dialog == old(self).describe_dialog,
    {
        let id = self.state.begin_row_watch();
        ResourceWatchRequest {
            request_id: id,
            cluster_id,
            kind: ResourceLoadKind::Deployments { namespace: crate::resource_panel::copy_opt_text(&self.state.namespace_filter) },
        }
    }

    /// Opens the view dialog of the row with `key` on its manifest's YAML;
    /// nothing happens when no row has the key.
    pub fn open_view_dialog(&mut self, key: &str, yaml: String)
        requires
            old(self).wf(),
        ensures
            final(self).wf(),
            final(self).state == old(self).state,
            final(self).describe_dialog == old(self).describe_dialog,
            match crate::resource_panel::table::key_index::<DeploymentRow>(views(old(self).state.rows@), key@) {
                Some(i) => final(self).view_dialog matches Some(d) && d.key@ == key@
                    && d.name@ == views(old(self).state.rows@)[i].name && d.yaml == yaml,
                None => final(self).view_dialog == old(self).view_dialog,
            },
    {
        proof {
            crate::resource_panel::state::lemma_key_index::<DeploymentRow>(views(self.state.rows@), key@);
        }
        match self.state.row_index(key) {
            Some(i) => {
                assert(views(self.state.rows@)[i as int] == self.state.rows@[i as int]@);
                let name = self.state.rows[i].name.clone();
                self.view_dialog = Some(ManifestViewDialog { key: key.to_owned(), name, yaml });
            },
            None => {},
        }
    }

    /// Opens the describe window of the row with `key`; `raw_yaml` is its
    /// manifest as YAML.  Nothing happens when no row has the key.
    pub fn open_describe_dialog(&mut self, key: &str, raw_yaml: String)
        requires
            old(self).wf(),
        ensures
            final(self).wf(),
            final(self).state == old(self).state,
            final(self).view_dialog == old(self).view_dialog,
            match crate::resource_panel::table::key_index::<DeploymentRow>(views(old(self).state.rows@), key@) {
                Some(i) => final(self).describe_dialog matches Some(d) && d.key@ == key@
                    && d.name@ == views(old(self).state.rows@)[i].name
                    && deployment_describe_ok(d.describe, views(old(self).state.rows@)[i], raw_yaml@),
                None => final(self).describe_dialog == old(self).describe_dialog,
            },
    {
        proof {
            crate::resource_panel::state::lemma_key_index::<DeploymentRow>(views(self.state.rows@), key@);
        }
        match self.state.row_index(key) {
            Some(i) => {
                assert(views(self.state.rows@)[i as int] == self.state.rows@[i as int]@);
                let name = self.state.rows[i].name.clone();
                let describe = deployment_describe_from_row(&self.state.rows[i], raw_yaml);
                self.describe_dialog = Some(DeploymentDescribeDialog { key: key.to_owned(), name, describe });
            },
            None => {},
        }
    }

    /// The delete targets of the selected rows, in row order.
    pub fn selected_delete_targets(&self) -> (r: Vec<ResourceDeleteTarget>)
        ensures
            crate::resource_panel::components::delete_targets_view(r@)
                == crate::resource_panel::components::selected_targets_spec(
                    crate::resource_panel::state::row_targets::<DeploymentRow>(views(self.state.rows@)),
                    self.state.selected_rows@,
                ),
    {
        self.state.selected_delete_targets()
    }
}

/// Every deployment list is shown in table order, and shows each listed object
/// exactly once.
pub proof fn law_deployment_rows_in_table_order(items: Seq<ResourceSummary>, now: int)
    ensures
        crate::resource_panel::table::in_table_order::<DeploymentRow>(deployment_rows_spec(items, now)),
        deployment_rows_spec(items, now).to_multiset() == items.map_values(|s: ResourceSummary| deployment_row_spec(s, now)).to_multiset(),
{
    let all = items.map_values(|s: ResourceSummary| deployment_row_spec(s, now));
    let p = |v: DeploymentRowView| true;
    assert forall|a: DeploymentRowView| p(a) implies !DeploymentRow::ordered_before(a, a) by {
        crate::resource_panel::job::lemma_namespace_name_irreflexive(a.namespace, a.name);
    }
    assert forall|a: DeploymentRowView, b: DeploymentRowView, c: DeploymentRowView|
        p(a) && p(b) && p(c) && #[trigger] DeploymentRow::ordered_before(a, b) && #[trigger] DeploymentRow::ordered_before(b, c)
        implies DeploymentRow::ordered_before(a, c) by {
        crate::resource_panel::job::lemma_namespace_name_transitive(a.namespace, a.name, b.namespace, b.name, c.namespace, c.name);
    }
    assert forall|i: int| 0 <= i < all.len() implies p(#[trigger] all[i]) by {}
    crate::resource_panel::table::lemma_sort_views_in_order::<DeploymentRow>(all, p);
    crate::resource_panel::state::lemma_sort_views_permutes::<DeploymentRow>(all);
}
/// An applied or watched deployment replaces the row with its key, or is
/// added: the rows stay sorted by namespace and name with one row per
/// key, its row is the one row with its key, every other row stays, and
/// the table grows by one row exactly when the key is new.
pub proof fn law_deployment_upsert_keeps_table(s: Seq<DeploymentRowView>, row: DeploymentRowView)
    requires
        keys_distinct::<DeploymentRow>(s),
    ensures
        crate::resource_panel::table::in_table_order::<DeploymentRow>(upsert_views::<DeploymentRow>(s, row)),
        keys_distinct::<DeploymentRow>(upsert_views::<DeploymentRow>(s, row)),
        upsert_views::<DeploymentRow>(s, row).contains(row),
        forall|i: int| 0 <= i < upsert_views::<DeploymentRow>(s, row).len() && (#[trigger] upsert_views::<DeploymentRow>(s, row)[i]).key == row.key
            ==> upsert_views::<DeploymentRow>(s, row)[i] == row,
        forall|v: DeploymentRowView| #[trigger] s.contains(v) && v.key != row.key ==> upsert_views::<DeploymentRow>(s, row).contains(v),
        upsert_views::<DeploymentRow>(s, row).len() == s.len() + if row_keys::<DeploymentRow>(s).contains(row.key) { 0int } else { 1int },
{
    let p = |v: DeploymentRowView| true;
    assert forall|a: DeploymentRowView| p(a) implies !DeploymentRow::ordered_before(a, a) by {
        crate::resource_panel::job::lemma_namespace_name_irreflexive(a.namespace, a.name);
    }
    assert forall|a: DeploymentRowView, b: DeploymentRowView, c: DeploymentRowView|
        p(a) && p(b) && p(c) && #[trigger] DeploymentRow::ordered_before(a, b) && #[trigger] DeploymentRow::ordered_before(b, c)
        implies DeploymentRow::ordered_before(a, c) by {
        crate::resource_panel::job::lemma_namespace_name_transitive(a.namespace, a.name, b.namespace, b.name, c.namespace, c.name);
    }
    law_upsert_keeps_table::<DeploymentRow>(s, row, p);
}
/// A search finds a row by any of its name, namespace, selector, images and
/// conditions: when the search text,
/// trimmed and lower-cased, occurs in one of them lower-cased, the row
/// matches; and a row matches a non-blank search only that way.
pub proof fn law_deployment_search_looks_at_every_column(v: DeploymentRowView, search: Seq<char>)
    ensures
        ({
            let needle = crate::text::lowercase(crate::text::trim_seq(search));
            &&& crate::text::has_infix(crate::text::lowercase(v.name), needle) ==> DeploymentRow::matches_needle(v, needle)
            &&& crate::text::has_infix(crate::text::lowercase(v.namespace), needle) ==> DeploymentRow::matches_needle(v, needle)
            &&& crate::text::has_infix(crate::text::lowercase(v.selector), needle) ==> DeploymentRow::matches_needle(v, needle)
            &&& crate::text::has_infix(crate::text::lowercase(v.images), needle) ==> DeploymentRow::matches_needle(v, needle)
            &&& crate::text::has_infix(crate::text::lowercase(v.conditions), needle) ==> DeploymentRow::matches_needle(v, needle)
            &&& DeploymentRow::matches_needle(v, needle) && needle.len() > 0 ==> {
                ||| crate::text::has_infix(crate::text::lowercase(v.name), needle)
                ||| crate::text::has_infix(crate::text::lowercase(v.namespace), needle)
                ||| crate::text::has_infix(crate::text::lowercase(v.selector), needle)
                ||| crate::text::has_infix(crate::text::lowercase(v.images), needle)
                ||| crate::text::has_infix(crate::text::lowercase(v.conditions), needle)
            }
        }),
{
}
/// A deployment's row reads its manifest: each replica column is the
/// status count (0 when missing) over `spec.replicas` (`N/A` when
/// missing), the strategy is `spec.strategy.type` (`N/A` when missing), and
/// the selector, images, conditions, age and key come from the manifest.
pub proof fn law_deployment_row_reads_manifest(s: ResourceSummary, now: int)
    ensures
        ({
            let raw = s.raw;
            let row = deployment_row_spec(s, now);
            let desired = match crate::json::json_as_u64(crate::resource_panel::components::at2(Some(raw), "spec"@, "replicas"@)) {
                Some(d) => crate::text::decimal(d as nat),
                None => "N/A"@,
            };
            let ratio = |k: Seq<char>| match crate::json::json_as_u64(crate::resource_panel::components::at2(Some(raw), "status"@, k)) {
                Some(n) => crate::text::decimal(n as nat),
                None => crate::text::decimal(0),
            } + "/"@ + desired;
            &&& row.ready == ratio("readyReplicas"@)
            &&& row.up_to_date == ratio("updatedReplicas"@)
            &&& row.available == ratio("availableReplicas"@)
            &&& row.replicas == ratio("replicas"@)
            &&& row.strategy == match json_as_str(crate::resource_panel::components::at3(Some(raw), "spec"@, "strategy"@, "type"@)) {
                Some(t) => t,
                None => "N/A"@,
            }
            &&& row.selector == selector_label_spec(crate::resource_panel::components::at3(Some(raw), "spec"@, "selector"@, "matchLabels"@))
            &&& row.images == container_images_spec(raw)
            &&& row.conditions == condition_summary_spec(raw)
            &&& row.age == age_spec(raw, now)
            &&& row.key == row.namespace + "/"@ + row.name
        }),
{
    reveal_strlit("N/A");
    reveal_strlit("/");
}
} // verus!
