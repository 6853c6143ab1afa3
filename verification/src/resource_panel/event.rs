//! The Events panel: one row per event, newest first.
use vstd::prelude::*;
use crate::resource_panel::state::{keys_distinct, law_upsert_keeps_table, row_keys};
use crate::resource_panel::table::upsert_views;
use crate::resource_panel::describe::{EventDescribeDialog, event_describe_from_row, event_describe_ok};
use crate::json::{JsonValue, json_as_str, json_as_u64, json_get, opt_text};
use crate::resource_panel::{
    ClusterId, ResourceDeleteTarget, ResourceEvent, ResourceList, ResourceLoadKind,
    ResourceLoadRequest, ResourceRef, ResourceSummary, ResourceUiEvent, ResourceWatchRequest,
    opt_view,
};
use crate::resource_panel::components::{
    ManifestViewDialog, ResourceMetadata, ResourceRowTarget, field_has, field_matches, field_text,
    member, member_of, metadata_str, metadata_text, na, na_text, name_of_summary,
    namespace_of_summary, namespace_value, namespace_value_spec, or_empty, or_na, slash_join,
    slash_key, summary_name, summary_namespace, text_of, text_or_na, u64_of,
};
use crate::resource_panel::job::{namespace_name_before, namespace_name_less};
use crate::resource_panel::state::{
    PanelRow, PanelState, list_names_result, names_of_load, names_of_watch, watch_names_result,
};
use crate::resource_panel::table::{TableRow, sort_rows, sort_views, text_less, text_lt, views};
use crate::text::{decimal, push_str, str_eq, u64_to_string};
use crate::time::{human_age_from_rfc3339, timestamp_text};


verus! {

/// A row of the Events table.
pub struct EventRow {
    pub key: String,
    pub name: String,
    pub namespace: String,
    pub event_type: String,
    pub reason: String,
    pub involved_object: String,
    pub message: String,
    pub count: String,
    pub source: String,
    pub first_seen: String,
    pub last_seen: String,
    pub age: String,
    pub sort_timestamp: String,
    pub raw: JsonValue,
}

/// What an event row shows.
pub ghost struct EventRowView {
    pub key: Seq<char>,
    pub name: Seq<char>,
    pub namespace: Seq<char>,
    pub event_type: Seq<char>,
    pub reason: Seq<char>,
    pub involved_object: Seq<char>,
    pub message: Seq<char>,
    pub count: Seq<char>,
    pub source: Seq<char>,
    pub first_seen: Seq<char>,
    pub last_seen: Seq<char>,
    pub age: Seq<char>,
    pub sort_timestamp: Seq<char>,
    pub raw: JsonValue,
}

impl View for EventRow {
    type V = EventRowView;

    open spec fn view(&self) -> EventRowView {
        EventRowView {
            key: self.key@,
            name: self.name@,
            namespace: self.namespace@,
            event_type: self.event_type@,
            reason: self.reason@,
            involved_object: self.involved_object@,
            message: self.message@,
            count: self.count@,
            source: self.source@,
            first_seen: self.first_seen@,
            last_seen: self.last_seen@,
            age: self.age@,
            sort_timestamp: self.sort_timestamp@,
            raw: self.raw,
        }
    }
}

/// Newest first (by the sort timestamp's text), then by namespace and name.
pub open spec fn event_before(a: EventRowView, b: EventRowView) -> bool {
    text_lt(b.sort_timestamp, a.sort_timestamp)
        || (a.sort_timestamp == b.sort_timestamp && namespace_name_before(a.namespace, a.name, b.namespace, b.name))
}

impl TableRow for EventRow {
    open spec fn key_of(v: EventRowView) -> Seq<char> {
        v.key
    }

    open spec fn ordered_before(a: EventRowView, b: EventRowView) -> bool {
        event_before(a, b)
    }

    fn row_key(&self) -> (r: &str) {
        self.key.as_str()
    }

    fn before(&self, other: &Self) -> (r: bool) {
        text_less(other.sort_timestamp.as_str(), self.sort_timestamp.as_str())
            || (str_eq(self.sort_timestamp.as_str(), other.sort_timestamp.as_str())
            && namespace_name_less(self.namespace.as_str(), self.name.as_str(), other.namespace.as_str(), other.name.as_str()))
    }
}

impl PanelRow for EventRow {
    open spec fn namespace_of(v: EventRowView) -> Option<Seq<char>> {
        namespace_value_spec(v.namespace)
    }

    open spec fn name_of(v: EventRowView) -> Seq<char> {
        v.name
    }

    open spec fn matches_needle(v: EventRowView, needle: Seq<char>) -> bool {
        ||| needle.len() == 0
        ||| field_matches(v.namespace, needle)
        ||| field_matches(v.event_type, needle)
        ||| field_matches(v.reason, needle)
        ||| field_matches(v.involved_object, needle)
        ||| field_matches(v.message, needle)
        ||| field_matches(v.source, needle)
    }

    proof fn lemma_empty_needle_matches(v: EventRowView) {
    }

    fn target(&self) -> (r: ResourceRowTarget) {
        ResourceRowTarget { key: self.key.clone(), namespace: namespace_value(self.namespace.as_str()), name: self.name.clone() }
    }

    fn matches(&self, needle: &str) -> (r: bool) {
        crate::resource_panel::components::char_count(needle) == 0
            || field_has(self.namespace.as_str(), needle)
            || field_has(self.event_type.as_str(), needle)
            || field_has(self.reason.as_str(), needle)
            || field_has(self.involved_object.as_str(), needle)
            || field_has(self.message.as_str(), needle)
            || field_has(self.source.as_str(), needle)
    }
}

/// `namespace/name`, the key of an event row.
pub fn event_key(namespace: &str, name: &str) -> (r: String)
    ensures
        r@ == slash_key(namespace@, name@),
{
    slash_join(namespace, name)
}

/// A timestamp shown as its age at `now`, or as written when it does not
/// parse.
pub fn format_timestamp(timestamp: &str, now: i64) -> (r: String)
    ensures
        r@ == timestamp_text(timestamp@, now as int),
{
    match human_age_from_rfc3339(timestamp, now) {
        Some(age) => age,
        None => timestamp.to_owned(),
    }
}

/// A timestamp's age at `now`, or `"N/A"` without a timestamp.
pub open spec fn seen_text(timestamp: Option<Seq<char>>, now: int) -> Seq<char> {
    match timestamp {
        Some(t) => timestamp_text(t, now),
        None => na_text(),
    }
}

/// A timestamp's age at `now`, or `"N/A"` without a timestamp.
pub fn seen(timestamp: Option<&str>, now: i64) -> (r: String)
    ensures
        r@ == seen_text(opt_text(timestamp), now as int),
{
    match timestamp {
        Some(t) => format_timestamp(t, now),
        None => na(),
    }
}

/// The first text that is there.
pub open spec fn first_of(a: Option<Seq<char>>, b: Option<Seq<char>>) -> Option<Seq<char>> {
    match a {
        Some(t) => Some(t),
        None => b,
    }
}

/// `<kind>/<name>` of the involved object, each `"N/A"` when missing.
pub open spec fn involved_object_spec(raw: JsonValue) -> Seq<char> {
    let object = json_get(raw, "involvedObject"@);
    or_na(json_as_str(member(object, "kind"@))) + seq!['/'] + or_na(json_as_str(member(object, "name"@)))
}

/// `<kind>/<name>` of the involved object.
pub fn involved_object_name(raw: &JsonValue) -> (r: String)
    ensures
        r@ == involved_object_spec(*raw),
{
    let object = raw.get("involvedObject");
    let mut s = text_or_na(text_of(member_of(object, "kind")));
    let name = text_or_na(text_of(member_of(object, "name")));
    crate::text::push_char(&mut s, '/');
    push_str(&mut s, name.as_str());
    s
}

/// Who reported the event: the source component, else the reporting
/// controller, else the reporting instance, else `"N/A"`.
pub open spec fn event_source_spec(raw: JsonValue) -> Seq<char> {
    or_na(first_of(
        json_as_str(member(json_get(raw, "source"@), "component"@)),
        first_of(field_text(raw, "reportingController"@), field_text(raw, "reportingInstance"@)),
    ))
}

/// Who reported the event.
pub fn event_source(raw: &JsonValue) -> (r: String)
    ensures
        r@ == event_source_spec(*raw),
{
    match text_of(member_of(raw.get("source"), "component")) {
        Some(c) => c.to_owned(),
        None => match text_of(raw.get("reportingController")) {
            Some(c) => c.to_owned(),
            None => text_or_na(text_of(raw.get("reportingInstance"))),
        },
    }
}

/// How often the event happened: `count`, else `series.count`, else
/// `"N/A"`.
pub open spec fn event_count_spec(raw: JsonValue) -> Seq<char> {
    let count = match json_as_u64(json_get(raw, "count"@)) {
        Some(n) => Some(n),
        None => json_as_u64(member(json_get(raw, "series"@), "count"@)),
    };
    match count {
        Some(n) => decimal(n as nat),
        None => na_text(),
    }
}

/// How often the event happened.
pub fn event_count(raw: &JsonValue) -> (r: String)
    ensures
        r@ == event_count_spec(*raw),
{
    let count = match u64_of(raw.get("count")) {
        Some(n) => Some(n),
        None => u64_of(member_of(raw.get("series"), "count")),
    };
    match count {
        Some(n) => u64_to_string(n),
        None => na(),
    }
}

/// When the event was first seen: `firstTimestamp`, else `eventTime`.
pub open spec fn first_event_timestamp(raw: JsonValue) -> Option<Seq<char>> {
    first_of(field_text(raw, "firstTimestamp"@), field_text(raw, "eventTime"@))
}

/// When the event was last seen: `lastTimestamp`, else `eventTime`, else
/// the creation timestamp.
pub open spec fn last_event_timestamp(raw: JsonValue) -> Option<Seq<char>> {
    first_of(
        field_text(raw, "lastTimestamp"@),
        first_of(field_text(raw, "eventTime"@), metadata_text(raw, "creationTimestamp"@)),
    )
}

/// The row a listed event is shown as, at time `now`.
pub open spec fn event_row_spec(s: ResourceSummary, now: int) -> EventRowView {
    let raw = s.raw;
    let name = summary_name(s);
    let namespace = summary_namespace(s);
    let created = metadata_text(raw, "creationTimestamp"@);
    EventRowView {
        key: slash_key(namespace, name),
        name,
        namespace,
        event_type: or_na(field_text(raw, "type"@)),
        reason: or_na(field_text(raw, "reason"@)),
        involved_object: involved_object_spec(raw),
        message: or_na(field_text(raw, "message"@)),
        count: event_count_spec(raw),
        source: event_source_spec(raw),
        first_seen: seen_text(first_event_timestamp(raw), now),
        last_seen: seen_text(last_event_timestamp(raw), now),
        age: seen_text(created, now),
        sort_timestamp: or_empty(first_of(last_event_timestamp(raw), created)),
        raw,
    }
}

impl EventRow {
    /// The row a listed event is shown as, at time `now` (seconds since the
    /// Unix epoch, for the ages).
    pub fn from_summary(summary: ResourceSummary, now: i64) -> (r: EventRow)
        ensures
            r@ == event_row_spec(summary, now as int),
    {
        let name = name_of_summary(&summary);
        let namespace = namespace_of_summary(&summary);
        let raw = &summary.raw;
        let event_type = text_or_na(text_of(raw.get("type")));
        let reason = text_or_na(text_of(raw.get("reason")));
        let message = text_or_na(text_of(raw.get("message")));
        let involved_object = involved_object_name(raw);
        let source = event_source(raw);
        let created = metadata_str(raw, "creationTimestamp");
        let first = match text_of(raw.get("firstTimestamp")) {
            Some(t) => Some(t),
            None => text_of(raw.get("eventTime")),
        };
        let last = match text_of(raw.get("lastTimestamp")) {
            Some(t) => Some(t),
            None => match text_of(raw.get("eventTime")) {
                Some(t) => Some(t),
                None => created,
            },
        };
        let sort_timestamp = match last {
            Some(t) => t.to_owned(),
            None => match created {
                Some(t) => t.to_owned(),
                None => String::new(),
            },
        };
        let key = event_key(namespace.as_str(), name.as_str());
        let count = event_count(raw);
        let first_seen = seen(first, now);
        let last_seen = seen(last, now);
        let age = seen(created, now);
        EventRow {
            key,
            name,
            namespace,
            event_type,
            reason,
            involved_object,
            message,
            count,
            source,
            first_seen,
            last_seen,
            age,
            sort_timestamp,
            raw: summary.raw,
        }
    }
}

/// The rows of an event list in table order.
pub open spec fn event_rows_spec(items: Seq<ResourceSummary>, now: int) -> Seq<EventRowView> {
    sort_views::<EventRow>(items.map_values(|s: ResourceSummary| event_row_spec(s, now)))
}

/// The rows of an event list, newest first.
pub fn event_rows_from_list(items: Vec<ResourceSummary>, now: i64) -> (r: Vec<EventRow>)
    ensures
        views(r@) == event_rows_spec(items@, now as int),
{
    let ghost all = items@.map_values(|s: ResourceSummary| event_row_spec(s, now as int));
    let mut src = items;
    let mut rows: Vec<EventRow> = Vec::new();
    let mut k: usize = 0;
    assert(all.len() == src.len());
    assert forall|j: int| 0 <= j < src@.len() implies event_row_spec(#[trigger] src@[j], now as int) == all[0 + j] by {}
    while src.len() > 0
        invariant
            k <= all.len(),
            all.len() <= usize::MAX,
            src@.len() == all.len() - k,
            forall|j: int| 0 <= j < src@.len() ==> event_row_spec(#[trigger] src@[j], now as int) == all[k + j],
            views(rows@) == all.take(k as int),
        decreases src@.len(),
    {
        let ghost before = src@;
        let item = src.remove(0);
        assert(event_row_spec(item, now as int) == all[k as int]);
        assert forall|j: int| 0 <= j < src@.len() implies event_row_spec(#[trigger] src@[j], now as int) == all[k + 1 + j] by {
            assert(src@[j] == before[j + 1]);
        }
        let row = EventRow::from_summary(item, now);
        let ghost rows_before = rows@;
        rows.push(row);
        assert(views(rows@) =~= views(rows_before).push(row@));
        assert(views(rows@) =~= all.take(k + 1));
        k = k + 1;
    }
    assert(all.take(k as int) =~= all);
    sort_rows(rows)
}

/// The Events panel.
pub struct EventResourcePanel {
    pub state: PanelState<EventRow>,
    pub view_dialog: Option<ManifestViewDialog>,
    pub describe_dialog: Option<EventDescribeDialog>,
}

/// The event rows of a list answer at time `now`.
pub open spec fn event_load_rows(result: Result<ResourceList, String>, now: int) -> Result<Seq<EventRowView>, String> {
    match result {
        Ok(list) => Ok(event_rows_spec(list.items@, now)),
        Err(e) => Err(e),
    }
}

/// The event rows of a watch answer at time `now`: only a snapshot has rows.
pub open spec fn event_watch_rows(result: Result<ResourceEvent, String>, now: int) -> Result<Option<Seq<EventRowView>>, String> {
    match result {
        Ok(ResourceEvent::Snapshot(list)) => Ok(Some(event_rows_spec(list.items@, now))),
        Ok(_) => Ok(None),
        Err(e) => Err(e),
    }
}

/// What an answer does to the Events panel's state at time `now`: namespace
/// answers update the namespace list whoever asked; event answers go through
/// the request checks; anything else changes nothing.
pub open spec fn event_event_post(old: PanelState<EventRow>, new: PanelState<EventRow>, event: ResourceUiEvent, now: int) -> bool {
    match event {
        ResourceUiEvent::ResourcesLoaded { request, result } => match request.kind {
            ResourceLoadKind::Namespaces =>
                PanelState::<EventRow>::namespace_load_post(old, new, request.request_id, list_names_result(result)),
            ResourceLoadKind::Events { .. } =>
                PanelState::<EventRow>::rows_load_post(old, new, request.request_id, event_load_rows(result, now)),
            _ => new == old,
        },
        ResourceUiEvent::ResourceWatchUpdated { request, result } => match request.kind {
            ResourceLoadKind::Namespaces =>
                PanelState::<EventRow>::namespace_watch_post(old, new, request.request_id, watch_names_result(result)),
            ResourceLoadKind::Events { .. } =>
                PanelState::<EventRow>::rows_watch_post(old, new, request.request_id, event_watch_rows(result, now)),
            _ => new == old,
        },
        _ => new == old,
    }
}

impl EventResourcePanel {
    /// The panel's invariant.
    pub open spec fn wf(&self) -> bool {
        self.state.wf()
    }

    /// An empty panel.
    pub fn new() -> (r: EventResourcePanel)
        ensures
            r.wf(),
            r.state.is_initial(),
            r.state.next_request_id == 0,
            r.state.last_cluster_id is None,
            r.view_dialog is None,
            r.describe_dialog is None,
    {
        EventResourcePanel { state: PanelState::new(), view_dialog: None, describe_dialog: None }
    }

    /// Takes an answer; `now` (seconds since the Unix epoch) dates the ages
    /// of new rows.
    pub fn apply_event(&mut self, event: ResourceUiEvent, now: i64)
        requires
            old(self).wf(),
        ensures
            final(self).wf(),
            event_event_post(old(self).state, final(self).state, event, now as int),
            final(self).view_dialog == old(self).view_dialog,
            final(self).describe_dialog == old(self).describe_dialog,
    {
        match event {
            ResourceUiEvent::ResourcesLoaded { request, result } => {
                let id = request.request_id;
                match request.kind {
                    ResourceLoadKind::Namespaces => self.state.apply_namespace_load(id, names_of_load(result)),
                    ResourceLoadKind::Events { .. } => {
                        let rows = match result {
                            Ok(list) => Ok(event_rows_from_list(list.items, now)),
                            Err(e) => Err(e),
                        };
                        self.state.apply_rows_load(id, rows);
                    },
                    _ => {},
                }
            },
            ResourceUiEvent::ResourceWatchUpdated { request, result } => {
                let id = request.request_id;
                match request.kind {
                    ResourceLoadKind::Namespaces => self.state.apply_namespace_watch(id, names_of_watch(result)),
                    ResourceLoadKind::Events { .. } => {
                        let rows = match result {
                            Ok(ResourceEvent::Snapshot(list)) => Ok(Some(event_rows_from_list(list.items, now))),
                            Ok(_) => Ok(None),
                            Err(e) => Err(e),
                        };
                        self.state.apply_rows_watch(id, rows);
                    },
                    _ => {},
                }
            },
            _ => {},
        }
    }

    /// Forgets the previous cluster's rows, requests and dialogs when shown
    /// for another cluster.
    pub fn reset_for_cluster_change(&mut self, cluster_id: &ClusterId)
        requires
            old(self).wf(),
        ensures
            final(self).wf(),
            crate::resource_panel::state::cluster_view(old(self).state.last_cluster_id) == Some(cluster_id.id@)
                ==> *final(self) == *old(self),
            crate::resource_panel::state::cluster_view(old(self).state.last_cluster_id) != Some(cluster_id.id@) ==> {
                &&& final(self).state.is_initial()
                &&& crate::resource_panel::state::cluster_view(final(self).state.last_cluster_id) == Some(cluster_id.id@)
                &&& final(self).state.next_request_id == old(self).state.next_request_id
                &&& final(self).view_dialog is None
                &&& final(self).describe_dialog is None
            },
    {
        let same = match &self.state.last_cluster_id {
            Some(last) => last.same(cluster_id),
            None => false,
        };
        if same {
            return;
        }
        self.state.reset_for_cluster_change(cluster_id);
        self.view_dialog = None;
        self.describe_dialog = None;
    }

    /// A event list request for the selected namespace; it becomes the
    /// current one.
    pub fn request_events(&mut self, cluster_id: ClusterId) -> (r: ResourceLoadRequest)
        requires
            old(self).wf(),
            old(self).state.next_request_id < u64::MAX,
        ensures
            final(self).wf(),
            r.request_id == old(self).state.next_request_id + 1,
            r.cluster_id == cluster_id,
            r.kind matches ResourceLoadKind::Events { namespace } && opt_view(namespace) == opt_view(old(self).state.namespace_filter),
            final(self).state.next_request_id == r.request_id,
            final(self).state.row_request_id == Some(r.request_id),
            final(self).state.row_status == crate::resource_panel::LoadStatus::Loading,
            final(self).state.rows == old(self).state.rows,
            final(self).state.selected_rows == old(self).state.selected_rows,
            final(self).view_dialog == old(self).view_dialog,
            final(self).describe_dialog == old(self).describe_dialog,
    {
        let id = self.state.begin_row_load();
        ResourceLoadRequest {
            request_id: id,
            cluster_id,
            kind: ResourceLoadKind::Events { namespace: crate::resource_panel::copy_opt_text(&self.state.namespace_filter) },
        }
    }

    /// The namespace watch; it becomes the current one.
    pub fn request_namespace_watch(&mut self, cluster_id: ClusterId) -> (r: ResourceWatchRequest)
        requires
            old(self).wf(),
            old(self).state.next_request_id < u64::MAX,
        ensures
            final(self).wf(),
            r.request_id == old(self).state.next_request_id + 1,
            r.cluster_id == cluster_id,
            r.kind == ResourceLoadKind::Namespaces,
            final(self).state.next_request_id == r.request_id,
            final(self).state.namespace_watch_request_id == Some(r.request_id),
            final(self).state.namespace_status == crate::resource_panel::LoadStatus::Loading,
            final(self).state.same_rows(&old(self).state),
            final(self).view_dialog == old(self).view_dialog,
            final(self).describe_dialog == old(self).describe_dialog,
    {
        let id = self.state.begin_namespace_watch();
        ResourceWatchRequest { request_id: id, cluster_id, kind: ResourceLoadKind::Namespaces }
    }

    /// The event watch for the selected namespace; it becomes the current one.
    pub fn request_event_watch(&mut self, cluster_id: ClusterId) -> (r: ResourceWatchRequest)
        requires
            old(self).wf(),
            old(self).state.next_request_id < u64::MAX,
        ensures
            final(self).wf(),
            r.request_id == old(self).state.next_request_id + 1,
            r.cluster_id == cluster_id,
            r.kind matches ResourceLoadKind::Events { namespace } && opt_view(namespace) == opt_view(old(self).state.namespace_filter),
            final(self).state.next_request_id == r.request_id,
            final(self).state.row_watch_request_id == Some(r.request_id),
            final(self).state.row_status == crate::resource_panel::LoadStatus::Loading,
            final(self).state.rows == old(self).state.rows,
            final(self).state.selected_rows == old(self).state.selected_rows,
            final(self).view_dialog == old(self).view_dialog,
            final(self).describe_dialog == old(self).describe_dialog,
    {
        let id = self.state.begin_row_watch();
        ResourceWatchRequest {
            request_id: id,
            cluster_id,
            kind: ResourceLoadKind::Events { namespace: crate::resource_panel::copy_opt_text(&self.state.namespace_filter) },
        }
    }

    /// Opens the view dialog of the row with `key` on its manifest's YAML;
    /// nothing happens when no row has the key.
    pub fn open_view_dialog(&mut self, key: &str, yaml: String)
        requires
            old(self).wf(),
        ensures
            final(self).wf(),
            final(self).state == old(self).state,
            final(self).describe_dialog == old(self).describe_dialog,
            match crate::resource_panel::table::key_index::<EventRow>(views(old(self).state.rows@), key@) {
                Some(i) => final(self).view_dialog matches Some(d) && d.key@ == key@
                    && d.name@ == views(old(self).state.rows@)[i].name && d.yaml == yaml,
                None => final(self).view_dialog == old(self).view_dialog,
            },
    {
        proof {
            crate::resource_panel::state::lemma_key_index::<EventRow>(views(self.state.rows@), key@);
        }
        match self.state.row_index(key) {
            Some(i) => {
                assert(views(self.state.rows@)[i as int] == self.state.rows@[i as int]@);
                let name = self.state.rows[i].name.clone();
                self.view_dialog = Some(ManifestViewDialog { key: key.to_owned(), name, yaml });
            },
            None => {},
        }
    }

    /// Opens the describe window of the row with `key`; `raw_yaml` is its
    /// manifest as YAML.  Nothing happens when no row has the key.
    pub fn open_describe_dialog(&mut self, key: &str, raw_yaml: String)
        requires
            old(self).wf(),
        ensures
            final(self).wf(),
            final(self).state == old(self).state,
            final(self).view_dialog == old(self).view_dialog,
            match crate::resource_panel::table::key_index::<EventRow>(views(old(self).state.rows@), key@) {
                Some(i) => final(self).describe_dialog matches Some(d) && d.key@ == key@
                    && d.name@ == views(old(self).state.rows@)[i].name
                    && event_describe_ok(d.describe, views(old(self).state.rows@)[i], raw_yaml@),
                None => final(self).describe_dialog == old(self).describe_dialog,
            },
    {
        proof {
            crate::resource_panel::state::lemma_key_index::<EventRow>(views(self.state.rows@), key@);
        }
        match self.state.row_index(key) {
            Some(i) => {
                assert(views(self.state.rows@)[i as int] == self.state.rows@[i as int]@);
                let name = self.state.rows[i].name.clone();
                let describe = event_describe_from_row(&self.state.rows[i], raw_yaml);
                self.describe_dialog = Some(EventDescribeDialog { key: key.to_owned(), name, describe });
            },
            None => {},
        }
    }

    /// The delete targets of the selected rows, in row order.
    pub fn selected_delete_targets(&self) -> (r: Vec<ResourceDeleteTarget>)
        ensures
            crate::resource_panel::components::delete_targets_view(r@)
                == crate::resource_panel::components::selected_targets_spec(
                    crate::resource_panel::state::row_targets::<EventRow>(views(self.state.rows@)),
                    self.state.selected_rows@,
                ),
    {
        self.state.selected_delete_targets()
    }
}

/// Every event list is shown in table order, and shows each listed object
/// exactly once.
pub proof fn law_event_rows_in_table_order(items: Seq<ResourceSummary>, now: int)
    ensures
        crate::resource_panel::table::in_table_order::<EventRow>(event_rows_spec(items, now)),
        event_rows_spec(items, now).to_multiset() == items.map_values(|s: ResourceSummary| event_row_spec(s, now)).to_multiset(),
{
    let all = items.map_values(|s: ResourceSummary| event_row_spec(s, now));
    let p = |v: EventRowView| true;
    assert forall|a: EventRowView| p(a) implies !EventRow::ordered_before(a, a) by {
        crate::resource_panel::table::lemma_text_lt_irreflexive(a.sort_timestamp);
        crate::resource_panel::job::lemma_namespace_name_irreflexive(a.namespace, a.name);
    }
    assert forall|a: EventRowView, b: EventRowView, c: EventRowView|
        p(a) && p(b) && p(c) && #[trigger] EventRow::ordered_before(a, b) && #[trigger] EventRow::ordered_before(b, c)
        implies EventRow::ordered_before(a, c) by {
        if text_lt(b.sort_timestamp, a.sort_timestamp) && text_lt(c.sort_timestamp, b.sort_timestamp) {
            crate::resource_panel::table::lemma_text_lt_transitive(c.sort_timestamp, b.sort_timestamp, a.sort_timestamp);
        } else if a.sort_timestamp == b.sort_timestamp && b.sort_timestamp == c.sort_timestamp {
            crate::resource_panel::table::lemma_text_lt_irreflexive(a.sort_timestamp);
            crate::resource_panel::job::lemma_namespace_name_transitive(a.namespace, a.name, b.namespace, b.name, c.namespace, c.name);
        }
    }
    assert forall|i: int| 0 <= i < all.len() implies p(#[trigger] all[i]) by {}
    crate::resource_panel::table::lemma_sort_views_in_order::<EventRow>(all, p);
    crate::resource_panel::state::lemma_sort_views_permutes::<EventRow>(all);
}
/// An event that is watched replaces the row with its key, or is added:
/// the rows stay newest first (then by namespace and name) with one row
/// per key, its row is the one row with its key, every other row stays,
/// and the table grows by one row exactly when the key is new.
pub proof fn law_event_upsert_keeps_table(s: Seq<EventRowView>, row: EventRowView)
    requires
        keys_distinct::<EventRow>(s),
    ensures
        crate::resource_panel::table::in_table_order::<EventRow>(upsert_views::<EventRow>(s, row)),
        keys_distinct::<EventRow>(upsert_views::<EventRow>(s, row)),
        upsert_views::<EventRow>(s, row).contains(row),
        forall|i: int| 0 <= i < upsert_views::<EventRow>(s, row).len() && (#[trigger] upsert_views::<EventRow>(s, row)[i]).key == row.key
            ==> upsert_views::<EventRow>(s, row)[i] == row,
        forall|v: EventRowView| #[trigger] s.contains(v) && v.key != row.key ==> upsert_views::<EventRow>(s, row).contains(v),
        upsert_views::<EventRow>(s, row).len() == s.len() + if row_keys::<EventRow>(s).contains(row.key) { 0int } else { 1int },
{
    let p = |v: EventRowView| true;
    assert forall|a: EventRowView| p(a) implies !EventRow::ordered_before(a, a) by {
        crate::resource_panel::table::lemma_text_lt_irreflexive(a.sort_timestamp);
        crate::resource_panel::job::lemma_namespace_name_irreflexive(a.namespace, a.name);
    }
    assert forall|a: EventRowView, b: EventRowView, c: EventRowView|
        p(a) && p(b) && p(c) && #[trigger] EventRow::ordered_before(a, b) && #[trigger] EventRow::ordered_before(b, c)
        implies EventRow::ordered_before(a, c) by {
        if text_lt(b.sort_timestamp, a.sort_timestamp) && text_lt(c.sort_timestamp, b.sort_timestamp) {
            crate::resource_panel::table::lemma_text_lt_transitive(c.sort_timestamp, b.sort_timestamp, a.sort_timestamp);
        } else if a.sort_timestamp == b.sort_timestamp && b.sort_timestamp == c.sort_timestamp {
            crate::resource_panel::table::lemma_text_lt_irreflexive(a.sort_timestamp);
            crate::resource_panel::job::lemma_namespace_name_transitive(a.namespace, a.name, b.namespace, b.name, c.namespace, c.name);
        }
    }
    law_upsert_keeps_table::<EventRow>(s, row, p);
}
/// A search finds an event by any column it shows as text: when the
/// search text, trimmed and lower-cased, occurs in the lower-cased
/// namespace, type, reason, object, message or source, the row matches;
/// and a row matches a non-blank search only that way.
pub proof fn law_event_search_looks_at_every_column(v: EventRowView, search: Seq<char>)
    ensures
        ({
            let needle = crate::text::lowercase(crate::text::trim_seq(search));
            &&& crate::text::has_infix(crate::text::lowercase(v.namespace), needle) ==> EventRow::matches_needle(v, needle)
            &&& crate::text::has_infix(crate::text::lowercase(v.event_type), needle) ==> EventRow::matches_needle(v, needle)
            &&& crate::text::has_infix(crate::text::lowercase(v.reason), needle) ==> EventRow::matches_needle(v, needle)
            &&& crate::text::has_infix(crate::text::lowercase(v.involved_object), needle) ==> EventRow::matches_needle(v, needle)
            &&& crate::text::has_infix(crate::text::lowercase(v.message), needle) ==> EventRow::matches_needle(v, needle)
            &&& crate::text::has_infix(crate::text::lowercase(v.source), needle) ==> EventRow::matches_needle(v, needle)
            &&& EventRow::matches_needle(v, needle) && needle.len() > 0 ==> {
                ||| crate::text::has_infix(crate::text::lowercase(v.namespace), needle)
                ||| crate::text::has_infix(crate::text::lowercase(v.event_type), needle)
                ||| crate::text::has_infix(crate::text::lowercase(v.reason), needle)
                ||| crate::text::has_infix(crate::text::lowercase(v.involved_object), needle)
                ||| crate::text::has_infix(crate::text::lowercase(v.message), needle)
                ||| crate::text::has_infix(crate::text::lowercase(v.source), needle)
            }
        }),
{
}

/// The count column: the event's top-level `count` when it is a
/// non-negative integer, else its `series.count`, in decimal digits, and
/// `"N/A"` when neither is there.
pub proof fn law_event_count_column(s: ResourceSummary, now: int, n: u64)
    ensures
        json_get(s.raw, "count"@) == Some(JsonValue::Number(crate::json::JsonNumber::PosInt(n)))
            ==> event_row_spec(s, now).count == decimal(n as nat),
        json_get(s.raw, "count"@) is None
            && crate::resource_panel::components::at2(Some(s.raw), "series"@, "count"@)
                == Some(JsonValue::Number(crate::json::JsonNumber::PosInt(n)))
            ==> event_row_spec(s, now).count == decimal(n as nat),
        json_get(s.raw, "count"@) is None && crate::resource_panel::components::at2(Some(s.raw), "series"@, "count"@) is None
            ==> event_row_spec(s, now).count == "N/A"@,
{
    reveal_strlit("N/A");
}
/// An event's row reads its manifest: type, reason and message are its
/// texts (`N/A` when missing); the object is `kind/name` of
/// `involvedObject`; the source is `source.component`, else
/// `reportingController`, else `reportingInstance`; first seen is
/// `firstTimestamp`, else `eventTime`; last seen is `lastTimestamp`, else
/// `eventTime`, else the creation time; each time shown as its age.
pub proof fn law_event_row_reads_manifest(s: ResourceSummary, now: int)
    ensures
        ({
            let raw = s.raw;
            let row = event_row_spec(s, now);
            let top = |k: Seq<char>| json_as_str(json_get(raw, k));
            let or_na = |o: Option<Seq<char>>| match o {
                Some(t) => t,
                None => "N/A"@,
            };
            let seen = |o: Option<Seq<char>>| match o {
                Some(t) => crate::time::timestamp_text(t, now),
                None => "N/A"@,
            };
            let created = json_as_str(crate::resource_panel::components::at2(Some(raw), "metadata"@, "creationTimestamp"@));
            let first = match top("firstTimestamp"@) {
                Some(t) => Some(t),
                None => top("eventTime"@),
            };
            let last = match top("lastTimestamp"@) {
                Some(t) => Some(t),
                None => match top("eventTime"@) {
                    Some(t) => Some(t),
                    None => created,
                },
            };
            &&& row.event_type == or_na(top("type"@))
            &&& row.reason == or_na(top("reason"@))
            &&& row.message == or_na(top("message"@))
            &&& row.involved_object == or_na(json_as_str(crate::resource_panel::components::at2(Some(raw), "involvedObject"@, "kind"@))) + "/"@
                + or_na(json_as_str(crate::resource_panel::components::at2(Some(raw), "involvedObject"@, "name"@)))
            &&& row.source == or_na(match json_as_str(crate::resource_panel::components::at2(Some(raw), "source"@, "component"@)) {
                Some(c) => Some(c),
                None => match top("reportingController"@) {
                    Some(c) => Some(c),
                    None => top("reportingInstance"@),
                },
            })
            &&& row.first_seen == seen(first)
            &&& row.last_seen == seen(last)
            &&& row.age == seen(created)
            &&& row.sort_timestamp == match last {
                Some(t) => t,
                None => Seq::<char>::empty(),
            }
            &&& row.key == row.namespace + "/"@ + row.name
        }),
{
    reveal_strlit("N/A");
    reveal_strlit("/");
}
} // verus!
