//! Pieces shared by the resource panels: map entries and describe fields,
//! row targets and the selection they feed, the dialogs' data, and the
//! action requests built from them.
use vstd::prelude::*;
use crate::json::{JsonValue, display_text, entries_get, json_as_array, json_as_object, json_as_str, json_as_u64, json_get, opt_text, opt_value};
use crate::resource_panel::{
    ClusterId, ResourceActionKind, ResourceActionRequest, ResourceDeleteTarget, ResourceRef,
    ResourceSummary, copy_opt_text, opt_view, texts_view,
};
use crate::time::{human_age, human_age_from_rfc3339, timestamp_text};
use crate::resource_panel::table::{KeySet, TableRow, key_views, sort_rows, sort_views, text_less, text_lt, views};
use crate::text::{chars_of, push_char, push_str, str_eq, lowercase, to_lowercase, trim_seq, trim_str};

verus! {

/// One key and value of a string map (labels, annotations, selectors).
#[derive(Debug, PartialEq, Eq)]
pub struct ResourceMapEntry {
    pub key: String,
    pub value: String,
}

impl View for ResourceMapEntry {
    type V = (Seq<char>, Seq<char>);

    open spec fn view(&self) -> (Seq<char>, Seq<char>) {
        (self.key@, self.value@)
    }
}

impl TableRow for ResourceMapEntry {
    open spec fn key_of(v: (Seq<char>, Seq<char>)) -> Seq<char> {
        v.0
    }

    open spec fn ordered_before(a: (Seq<char>, Seq<char>), b: (Seq<char>, Seq<char>)) -> bool {
        text_lt(a.0, b.0)
    }

    fn row_key(&self) -> (r: &str) {
        self.key.as_str()
    }

    fn before(&self, other: &Self) -> (r: bool) {
        text_less(self.key.as_str(), other.key.as_str())
    }
}

/// Whether a text holds the character `c`.
pub fn has_char(s: &str, c: char) -> (r: bool)
    ensures
        r == s@.contains(c),
{
    let v = chars_of(s);
    let mut i: usize = 0;
    while i < v.len()
        invariant
            v@ == s@,
            i <= v@.len(),
            forall|j: int| 0 <= j < i ==> v@[j] != c,
        decreases v@.len() - i,
    {
        if v[i] == c {
            return true;
        }
        i = i + 1;
    }
    false
}

/// The number of characters of a text.
pub fn char_count(s: &str) -> (r: usize)
    ensures
        r == s@.len(),
{
    chars_of(s).len()
}

impl ResourceMapEntry {
    /// An entry with the given key and value.
    pub fn new(key: &str, value: &str) -> (r: ResourceMapEntry)
        ensures
            r.key@ == key@,
            r.value@ == value@,
    {
        ResourceMapEntry { key: key.to_owned(), value: value.to_owned() }
    }

    /// `key=value`, as a label selector writes it.
    pub fn selector(&self) -> (r: String)
        ensures
            r@ == self.key@ + seq!['='] + self.value@,
    {
        let mut s = self.key.clone();
        push_char(&mut s, '=');
        push_str(&mut s, self.value.as_str());
        s
    }

    /// Whether the entry is short enough to show as a chip: a key of at most
    /// 36 characters and a one-line value of at most 42.
    pub fn is_chip_friendly(&self) -> (r: bool)
        ensures
            r == (self.key@.len() <= 36 && self.value@.len() <= 42 && !self.value@.contains('\n')),
    {
        char_count(self.key.as_str()) <= 36 && char_count(self.value.as_str()) <= 42
            && !has_char(self.value.as_str(), '\n')
    }
}

/// A labelled value of a describe view.
#[derive(Debug, PartialEq, Eq)]
pub struct DescribeField {
    pub label: String,
    pub value: String,
}

impl DescribeField {
    /// A field with the given label and value.
    pub fn new(label: &str, value: &str) -> (r: DescribeField)
        ensures
            r.label@ == label@,
            r.value@ == value@,
    {
        DescribeField { label: label.to_owned(), value: value.to_owned() }
    }
}

/// One status condition of an object.
#[derive(Debug, PartialEq, Eq)]
pub struct DescribeCondition {
    pub condition_type: String,
    pub status: String,
    pub reason: String,
    pub message: String,
}

/// The describe view of one container of a pod template.
#[derive(Debug, PartialEq, Eq)]
pub struct ContainerTemplateDescribe {
    pub name: String,
    pub image: String,
    pub resources: Vec<DescribeField>,
    pub ports: String,
    pub env_count: String,
    pub volume_mounts: String,
    pub probes: Vec<DescribeField>,
}

/// The identity of a table row: its key, and the namespace and name of the
/// object it shows.
#[derive(Debug, PartialEq, Eq)]
pub struct ResourceRowTarget {
    pub key: String,
    pub namespace: Option<String>,
    pub name: String,
}

/// What a panel shows: its id and title, the manifest's apiVersion and kind,
/// the API resource, and whether objects live in namespaces.
#[derive(Debug, PartialEq, Eq)]
pub struct ResourceMetadata {
    pub id: String,
    pub title: String,
    pub api_version: String,
    pub kind: String,
    pub resource: ResourceRef,
    pub namespaced: bool,
}

/// The create dialog: the YAML being written and the last parse error.
#[derive(Debug, PartialEq, Eq)]
pub struct GenericCreateDialog {
    pub yaml: String,
    pub parse_error: Option<String>,
}

/// The edit dialog: the row being edited, its YAML, and the last parse error.
#[derive(Debug, PartialEq, Eq)]
pub struct GenericEditDialog {
    pub target: ResourceRowTarget,
    pub yaml: String,
    pub parse_error: Option<String>,
}

/// The batch delete dialog and the objects it would delete.
#[derive(Debug, PartialEq, Eq)]
pub struct GenericBatchDeleteDialog {
    pub targets: Vec<ResourceDeleteTarget>,
}

/// The delete dialog and the object it would delete.
#[derive(Debug, PartialEq, Eq)]
pub struct GenericDeleteDialog {
    pub target: ResourceDeleteTarget,
}

/// A read-only view of one row's manifest as YAML.
#[derive(Debug, PartialEq, Eq)]
pub struct ManifestViewDialog {
    pub key: String,
    pub name: String,
    pub yaml: String,
}

/// The keys of a list of row targets.
pub open spec fn target_keys(targets: Seq<ResourceRowTarget>) -> Seq<Seq<char>> {
    targets.map_values(|t: ResourceRowTarget| t.key@)
}

/// The set of the targets' keys.
pub fn visible_keys(targets: &[ResourceRowTarget]) -> (r: KeySet)
    ensures
        r.wf(),
        r@ == target_keys(targets@).to_set(),
{
    let mut keys = KeySet::new();
    let mut i: usize = 0;
    while i < targets.len()
        invariant
            i <= targets@.len(),
            keys.wf(),
            keys@ == target_keys(targets@).take(i as int).to_set(),
        decreases targets@.len() - i,
    {
        keys.insert(targets[i].key.as_str());
        proof {
            let t = target_keys(targets@);
            assert(t.take(i + 1) =~= t.take(i as int).push(t[i as int]));
            t.take(i as int).lemma_push_to_set_commute(t[i as int]);
        }
        i = i + 1;
    }
    assert(target_keys(targets@).take(i as int) =~= target_keys(targets@));
    keys
}

/// The view of a delete target: its namespace and name.
pub open spec fn delete_target_view(t: ResourceDeleteTarget) -> (Option<Seq<char>>, Seq<char>) {
    (opt_view(t.namespace), t.name@)
}

/// The views of a list of delete targets.
pub open spec fn delete_targets_view(v: Seq<ResourceDeleteTarget>) -> Seq<(Option<Seq<char>>, Seq<char>)> {
    v.map_values(|t: ResourceDeleteTarget| delete_target_view(t))
}

/// The view of a row target: its key, namespace and name.
pub open spec fn target_view(t: ResourceRowTarget) -> (Seq<char>, Option<Seq<char>>, Seq<char>) {
    (t.key@, opt_view(t.namespace), t.name@)
}

/// The views of a list of row targets.
pub open spec fn targets_view(v: Seq<ResourceRowTarget>) -> Seq<(Seq<char>, Option<Seq<char>>, Seq<char>)> {
    v.map_values(|t: ResourceRowTarget| target_view(t))
}

/// The delete targets (namespace, name) of the selected rows, in row order.
pub open spec fn selected_targets_spec(
    targets: Seq<(Seq<char>, Option<Seq<char>>, Seq<char>)>,
    selected: Set<Seq<char>>,
) -> Seq<(Option<Seq<char>>, Seq<char>)>
    decreases targets.len(),
{
    if targets.len() == 0 {
        Seq::empty()
    } else {
        let rest = selected_targets_spec(targets.drop_last(), selected);
        let t = targets.last();
        if selected.contains(t.0) {
            rest.push((t.1, t.2))
        } else {
            rest
        }
    }
}

/// The delete target of each selected row, in row order.
pub fn selected_delete_targets(targets: &[ResourceRowTarget], selected_rows: &KeySet) -> (r: Vec<ResourceDeleteTarget>)
    ensures
        delete_targets_view(r@) == selected_targets_spec(targets_view(targets@), selected_rows@),
{
    let mut out: Vec<ResourceDeleteTarget> = Vec::new();
    let mut i: usize = 0;
    while i < targets.len()
        invariant
            i <= targets@.len(),
            delete_targets_view(out@) == selected_targets_spec(targets_view(targets@).take(i as int), selected_rows@),
        decreases targets@.len() - i,
    {
        let t = &targets[i];
        assert(targets_view(targets@).take(i + 1).drop_last() =~= targets_view(targets@).take(i as int));
        if selected_rows.contains(t.key.as_str()) {
            let ghost before = out@;
            out.push(ResourceDeleteTarget { namespace: copy_opt_text(&t.namespace), name: t.name.clone() });
            assert(delete_targets_view(out@) =~= delete_targets_view(before).push((opt_view(t.namespace), t.name@)));
        }
        i = i + 1;
    }
    assert(targets_view(targets@).take(i as int) =~= targets_view(targets@));
    out
}

/// How a delete dialog names its target: `namespace/name`, or the name of a
/// cluster scoped object.
pub open spec fn target_label_spec(namespace: Option<Seq<char>>, name: Seq<char>) -> Seq<char> {
    match namespace {
        Some(ns) => ns + seq!['/'] + name,
        None => name,
    }
}

/// The label of a delete target.
pub fn resource_target_label(target: &ResourceDeleteTarget) -> (r: String)
    ensures
        r@ == target_label_spec(opt_view(target.namespace), target.name@),
{
    match &target.namespace {
        Some(namespace) => {
            let mut s = namespace.clone();
            push_char(&mut s, '/');
            push_str(&mut s, target.name.as_str());
            s
        },
        None => target.name.clone(),
    }
}

/// The `namespace:` line of a manifest template: present only for
/// namespaced resources.
pub open spec fn namespace_line_spec(namespaced: bool, namespace: Seq<char>) -> Seq<char> {
    if namespaced {
        seq![' ', ' ', 'n', 'a', 'm', 'e', 's', 'p', 'a', 'c', 'e', ':', ' '] + namespace + seq!['\n']
    } else {
        Seq::empty()
    }
}

/// The `namespace:` line of a manifest template.
pub fn namespace_line(namespaced: bool, namespace: &str) -> (r: String)
    ensures
        r@ == namespace_line_spec(namespaced, namespace@),
{
    if namespaced {
        let mut s = String::new();
        let prefix = "  namespace: ";
        proof {
            reveal_strlit("  namespace: ");
        }
        push_str(&mut s, prefix);
        push_str(&mut s, namespace);
        push_char(&mut s, '\n');
        s
    } else {
        String::new()
    }
}

/// A request to delete one object.
pub fn delete_resource_request(
    request_id: u64,
    cluster_id: ClusterId,
    metadata: ResourceMetadata,
    target: ResourceDeleteTarget,
) -> (r: ResourceActionRequest)
    ensures
        r.request_id == request_id,
        r.cluster_id == cluster_id,
        r.kind == (ResourceActionKind::DeleteResource {
            resource: metadata.resource,
            namespace: target.namespace,
            name: target.name,
        }),
{
    ResourceActionRequest {
        request_id,
        cluster_id,
        kind: ResourceActionKind::DeleteResource {
            resource: metadata.resource,
            namespace: target.namespace,
            name: target.name,
        },
    }
}

/// A request to apply a manifest.
pub fn apply_resource_request(
    request_id: u64,
    cluster_id: ClusterId,
    metadata: ResourceMetadata,
    parsed: ParsedResourceApply,
) -> (r: ResourceActionRequest)
    ensures
        r.request_id == request_id,
        r.cluster_id == cluster_id,
        r.kind == (ResourceActionKind::ApplyResource {
            resource: metadata.resource,
            namespace: parsed.namespace,
            name: parsed.name,
            manifest: parsed.manifest,
        }),
{
    ResourceActionRequest {
        request_id,
        cluster_id,
        kind: ResourceActionKind::ApplyResource {
            resource: metadata.resource,
            namespace: parsed.namespace,
            name: parsed.name,
            manifest: parsed.manifest,
        },
    }
}

/// A request to patch one object.
pub fn patch_resource_request(
    request_id: u64,
    cluster_id: ClusterId,
    metadata: ResourceMetadata,
    target: ResourceDeleteTarget,
    patch: JsonValue,
) -> (r: ResourceActionRequest)
    ensures
        r.request_id == request_id,
        r.cluster_id == cluster_id,
        r.kind == (ResourceActionKind::PatchResource {
            resource: metadata.resource,
            namespace: target.namespace,
            name: target.name,
            patch,
        }),
{
    ResourceActionRequest {
        request_id,
        cluster_id,
        kind: ResourceActionKind::PatchResource {
            resource: metadata.resource,
            namespace: target.namespace,
            name: target.name,
            patch,
        },
    }
}

/// A request to delete several objects.
pub fn batch_delete_resource_request(
    request_id: u64,
    cluster_id: ClusterId,
    metadata: ResourceMetadata,
    targets: Vec<ResourceDeleteTarget>,
) -> (r: ResourceActionRequest)
    ensures
        r.request_id == request_id,
        r.cluster_id == cluster_id,
        r.kind == (ResourceActionKind::BatchDeleteResources { resource: metadata.resource, targets }),
{
    ResourceActionRequest {
        request_id,
        cluster_id,
        kind: ResourceActionKind::BatchDeleteResources { resource: metadata.resource, targets },
    }
}


// ---------------------------------------------------------------------------
// Manifest fields
// ---------------------------------------------------------------------------

/// The member `key` of a value, when there is a value and it has one.
pub open spec fn member(v: Option<JsonValue>, key: Seq<char>) -> Option<JsonValue> {
    match v {
        Some(x) => json_get(x, key),
        None => None,
    }
}

/// The member `key` of a value, when there is a value and it has one.
pub fn member_of<'a>(v: Option<&'a JsonValue>, key: &str) -> (r: Option<&'a JsonValue>)
    ensures
        opt_value(r) == member(opt_value(v), key@),
{
    match v {
        Some(x) => x.get(key),
        None => None,
    }
}

/// The text of a value, when it is a string.
pub fn text_of<'a>(v: Option<&'a JsonValue>) -> (r: Option<&'a str>)
    ensures
        opt_text(r) == json_as_str(opt_value(v)),
{
    match v {
        Some(x) => x.as_str(),
        None => None,
    }
}

/// The value, when it is a non-negative integer.
pub fn u64_of(v: Option<&JsonValue>) -> (r: Option<u64>)
    ensures
        r == json_as_u64(opt_value(v)),
{
    match v {
        Some(x) => x.as_u64(),
        None => None,
    }
}

/// The items of a value, when it is an array.
pub fn array_of<'a>(v: Option<&'a JsonValue>) -> (r: Option<&'a Vec<JsonValue>>)
    ensures
        match json_as_array(opt_value(v)) {
            Some(items) => r matches Some(a) && a@ == items,
            None => r is None,
        },
{
    match v {
        Some(x) => x.as_array(),
        None => None,
    }
}

/// `"N/A"`, shown where a value is missing.
pub open spec fn na_text() -> Seq<char> {
    seq!['N', '/', 'A']
}

/// `"N/A"`, shown where a value is missing.
pub fn na() -> (r: String)
    ensures
        r@ == na_text(),
{
    let mut s = String::new();
    push_char(&mut s, 'N');
    push_char(&mut s, '/');
    push_char(&mut s, 'A');
    s
}

/// A text, or `"N/A"` when there is none.
pub open spec fn or_na(o: Option<Seq<char>>) -> Seq<char> {
    match o {
        Some(t) => t,
        None => na_text(),
    }
}

/// A text, or `"N/A"` when there is none.
pub fn text_or_na(o: Option<&str>) -> (r: String)
    ensures
        r@ == or_na(opt_text(o)),
{
    match o {
        Some(t) => t.to_owned(),
        None => na(),
    }
}

/// Texts joined with a separator between neighbours.
pub open spec fn joined(parts: Seq<Seq<char>>, sep: Seq<char>) -> Seq<char>
    decreases parts.len(),
{
    if parts.len() == 0 {
        Seq::empty()
    } else if parts.len() == 1 {
        parts[0]
    } else {
        joined(parts.drop_last(), sep) + sep + parts.last()
    }
}

/// Joins texts with a separator between neighbours.
pub fn join_texts(parts: &Vec<String>, sep: &str) -> (r: String)
    ensures
        r@ == joined(crate::resource_panel::texts_view(parts@), sep@),
{
    let ghost pv = crate::resource_panel::texts_view(parts@);
    let mut out = String::new();
    let mut i: usize = 0;
    while i < parts.len()
        invariant
            i <= parts@.len(),
            pv == crate::resource_panel::texts_view(parts@),
            out@ == joined(pv.take(i as int), sep@),
        decreases parts@.len() - i,
    {
        if i > 0 {
            push_str(&mut out, sep);
        }
        push_str(&mut out, parts[i].as_str());
        proof {
            assert(pv.take(i + 1).drop_last() =~= pv.take(i as int));
            assert(pv.take(i + 1).last() == parts@[i as int]@);
            if i == 0 {
                assert(pv.take(1)[0] == parts@[0]@);
            }
        }
        i = i + 1;
    }
    assert(pv.take(i as int) =~= pv);
    out
}

/// The joined texts, or `"N/A"` when there are none.
pub open spec fn joined_or_na(parts: Seq<Seq<char>>) -> Seq<char> {
    if parts.len() == 0 {
        na_text()
    } else {
        joined(parts, seq![',', ' '])
    }
}

/// Joins texts with `", "`, or gives `"N/A"` when there are none.
pub fn join_or_na(parts: &Vec<String>) -> (r: String)
    ensures
        r@ == joined_or_na(crate::resource_panel::texts_view(parts@)),
{
    if parts.len() == 0 {
        na()
    } else {
        let sep = ", ";
        proof {
            reveal_strlit(", ");
        }
        assert(sep@ =~= seq![',', ' ']);
        join_texts(parts, sep)
    }
}

// ---------------------------------------------------------------------------
// String maps
// ---------------------------------------------------------------------------

/// A member of a string map as shown: its key, and its value as text.
pub open spec fn entry_view(e: (String, JsonValue)) -> (Seq<char>, Seq<char>) {
    (e.0@, display_text(e.1))
}

/// The entries of a map value sorted by key; none when it is not a map.
pub open spec fn map_entries_spec(value: Option<JsonValue>) -> Seq<(Seq<char>, Seq<char>)> {
    match json_as_object(value) {
        Some(entries) => sort_views::<ResourceMapEntry>(entries.map_values(|e: (String, JsonValue)| entry_view(e))),
        None => Seq::empty(),
    }
}

/// The entries of a map value (labels, annotations) sorted by key, each
/// value shown as text.
pub fn resource_map_entries(value: Option<&JsonValue>) -> (r: Vec<ResourceMapEntry>)
    ensures
        views(r@) == map_entries_spec(opt_value(value)),
{
    let object = match value {
        Some(v) => v.as_object(),
        None => None,
    };
    match object {
        None => Vec::new(),
        Some(entries) => {
            let ghost ev = entries@.map_values(|e: (String, JsonValue)| entry_view(e));
            let mut out: Vec<ResourceMapEntry> = Vec::new();
            let mut i: usize = 0;
            while i < entries.len()
                invariant
                    i <= entries@.len(),
                    ev == entries@.map_values(|e: (String, JsonValue)| entry_view(e)),
                    views(out@) == ev.take(i as int),
                decreases entries@.len() - i,
            {
                let entry = &entries[i];
                let item = ResourceMapEntry { key: entry.0.clone(), value: entry.1.display_string() };
                assert(item@ == ev[i as int]);
                let ghost before = out@;
                out.push(item);
                assert(views(out@) =~= views(before).push(item@));
                assert(views(out@) =~= ev.take(i + 1));
                i = i + 1;
            }
            assert(ev.take(i as int) =~= ev);
            sort_rows(out)
        },
    }
}

/// `key=value` for each entry.
pub open spec fn entry_lines(entries: Seq<(Seq<char>, Seq<char>)>) -> Seq<Seq<char>> {
    entries.map_values(|e: (Seq<char>, Seq<char>)| e.0 + seq!['='] + e.1)
}

/// `key=value` for each entry of a map value, sorted by key.
pub fn string_map_lines(value: Option<&JsonValue>) -> (r: Vec<String>)
    ensures
        crate::resource_panel::texts_view(r@) == entry_lines(map_entries_spec(opt_value(value))),
{
    let entries = resource_map_entries(value);
    let ghost ev = views(entries@);
    let mut out: Vec<String> = Vec::new();
    let mut i: usize = 0;
    while i < entries.len()
        invariant
            i <= entries@.len(),
            ev == views(entries@),
            crate::resource_panel::texts_view(out@) == entry_lines(ev).take(i as int),
        decreases entries@.len() - i,
    {
        let line = entries[i].selector();
        assert(ev[i as int] == entries@[i as int]@);
        assert(line@ == entry_lines(ev)[i as int]);
        let ghost before = out@;
        out.push(line);
        assert(crate::resource_panel::texts_view(out@) =~= crate::resource_panel::texts_view(before).push(line@));
        assert(crate::resource_panel::texts_view(out@) =~= entry_lines(ev).take(i + 1));
        i = i + 1;
    }
    assert(entry_lines(ev).take(i as int) =~= entry_lines(ev));
    out
}

// ---------------------------------------------------------------------------
// Conditions
// ---------------------------------------------------------------------------

impl View for DescribeCondition {
    type V = (Seq<char>, Seq<char>, Seq<char>, Seq<char>);

    open spec fn view(&self) -> (Seq<char>, Seq<char>, Seq<char>, Seq<char>) {
        (self.condition_type@, self.status@, self.reason@, self.message@)
    }
}

/// A member's text, when the member is a string.
pub open spec fn field_text(v: JsonValue, key: Seq<char>) -> Option<Seq<char>> {
    json_as_str(json_get(v, key))
}

/// A condition as shown: its type, status, reason and message, each
/// `"N/A"` when missing.
pub open spec fn condition_view(c: JsonValue) -> (Seq<char>, Seq<char>, Seq<char>, Seq<char>) {
    (
        or_na(field_text(c, "type"@)),
        or_na(field_text(c, "status"@)),
        or_na(field_text(c, "reason"@)),
        or_na(field_text(c, "message"@)),
    )
}

/// The conditions of a conditions array; none when it is not an array.
pub open spec fn conditions_spec(value: Option<JsonValue>) -> Seq<(Seq<char>, Seq<char>, Seq<char>, Seq<char>)> {
    match json_as_array(value) {
        Some(items) => items.map_values(|c: JsonValue| condition_view(c)),
        None => Seq::empty(),
    }
}

/// The views of a list of conditions.
pub open spec fn conditions_view(v: Seq<DescribeCondition>) -> Seq<(Seq<char>, Seq<char>, Seq<char>, Seq<char>)> {
    v.map_values(|c: DescribeCondition| c@)
}

/// The status conditions of an object, in manifest order.
pub fn condition_describes(value: Option<&JsonValue>) -> (r: Vec<DescribeCondition>)
    ensures
        conditions_view(r@) == conditions_spec(opt_value(value)),
{
    match array_of(value) {
        None => Vec::new(),
        Some(items) => {
            let ghost cv = items@.map_values(|c: JsonValue| condition_view(c));
            let mut out: Vec<DescribeCondition> = Vec::new();
            let mut i: usize = 0;
            while i < items.len()
                invariant
                    i <= items@.len(),
                    cv == items@.map_values(|c: JsonValue| condition_view(c)),
                    conditions_view(out@) == cv.take(i as int),
                decreases items@.len() - i,
            {
                let c = &items[i];
                let item = DescribeCondition {
                    condition_type: text_or_na(text_of(c.get("type"))),
                    status: text_or_na(text_of(c.get("status"))),
                    reason: text_or_na(text_of(c.get("reason"))),
                    message: text_or_na(text_of(c.get("message"))),
                };
                assert(item@ == cv[i as int]);
                let ghost before = out@;
                out.push(item);
                assert(out@ == before.push(item));
                assert(conditions_view(out@) =~= conditions_view(before).push(item@));
                assert(conditions_view(out@) =~= cv.take(i + 1));
                i = i + 1;
            }
            assert(cv.take(i as int) =~= cv);
            out
        },
    }
}

// ---------------------------------------------------------------------------
// Search
// ---------------------------------------------------------------------------

/// The text a search looks for: the search text trimmed and lower-cased.
pub open spec fn search_needle(search_text: Seq<char>) -> Seq<char> {
    lowercase(trim_seq(search_text))
}

/// The text a search looks for.
pub fn needle_of(search_text: &str) -> (r: String)
    ensures
        r@ == search_needle(search_text@),
        r@.len() == 0 <==> trim_seq(search_text@).len() == 0,
{
    let trimmed = trim_str(search_text);
    to_lowercase(trimmed.as_str())
}

/// A field matches a needle when its lower-cased text holds it.
pub open spec fn field_matches(field: Seq<char>, needle: Seq<char>) -> bool {
    crate::text::has_infix(lowercase(field), needle)
}

/// Whether a field's lower-cased text holds the needle.
pub fn field_has(field: &str, needle: &str) -> (r: bool)
    ensures
        r == field_matches(field@, needle@),
{
    let lower = to_lowercase(field);
    crate::text::contains_str(lower.as_str(), needle)
}


// ---------------------------------------------------------------------------
// Fields every row shows
// ---------------------------------------------------------------------------

/// `metadata.<key>` of a manifest, when it is a string.
pub open spec fn metadata_text(raw: JsonValue, key: Seq<char>) -> Option<Seq<char>> {
    json_as_str(member(member(Some(raw), "metadata"@), key))
}

/// `metadata.<key>` of a manifest, when it is a string.
pub fn metadata_str<'a>(raw: &'a JsonValue, key: &str) -> (r: Option<&'a str>)
    ensures
        opt_text(r) == metadata_text(*raw, key@),
{
    text_of(member_of(raw.get("metadata"), key))
}

/// The object's name: the manifest's, else the listed one.
pub open spec fn summary_name(s: ResourceSummary) -> Seq<char> {
    match metadata_text(s.raw, "name"@) {
        Some(n) => n,
        None => s.name@,
    }
}

/// The object's namespace: the manifest's, else the listed one, else
/// `"N/A"`.
pub open spec fn summary_namespace(s: ResourceSummary) -> Seq<char> {
    match metadata_text(s.raw, "namespace"@) {
        Some(n) => n,
        None => or_na(opt_view(s.namespace)),
    }
}

/// The object's name: the manifest's, else the listed one.
pub fn name_of_summary(s: &ResourceSummary) -> (r: String)
    ensures
        r@ == summary_name(*s),
{
    match metadata_str(&s.raw, "name") {
        Some(n) => n.to_owned(),
        None => s.name.clone(),
    }
}

/// The object's namespace: the manifest's, else the listed one, else
/// `"N/A"`.
pub fn namespace_of_summary(s: &ResourceSummary) -> (r: String)
    ensures
        r@ == summary_namespace(*s),
{
    match metadata_str(&s.raw, "namespace") {
        Some(n) => n.to_owned(),
        None => match &s.namespace {
            Some(n) => n.clone(),
            None => na(),
        },
    }
}

/// The object's age at `now`: the age of its creation timestamp, the
/// timestamp as written when it does not parse, or `"N/A"` without one.
pub open spec fn age_spec(raw: JsonValue, now: int) -> Seq<char> {
    match metadata_text(raw, "creationTimestamp"@) {
        Some(ts) => timestamp_text(ts, now),
        None => na_text(),
    }
}

/// The object's age at `now`.
pub fn age_text(raw: &JsonValue, now: i64) -> (r: String)
    ensures
        r@ == age_spec(*raw, now as int),
{
    match metadata_str(raw, "creationTimestamp") {
        Some(ts) => match human_age_from_rfc3339(ts, now) {
            Some(age) => age,
            None => ts.to_owned(),
        },
        None => na(),
    }
}

/// `namespace/name`, the key of a namespaced row.
pub open spec fn slash_key(namespace: Seq<char>, name: Seq<char>) -> Seq<char> {
    namespace + seq!['/'] + name
}

/// `namespace/name`.
pub fn slash_join(namespace: &str, name: &str) -> (r: String)
    ensures
        r@ == slash_key(namespace@, name@),
{
    let mut s = namespace.to_owned();
    push_char(&mut s, '/');
    push_str(&mut s, name);
    s
}

/// The namespace a row's target carries: none when the row shows none.
pub open spec fn namespace_value_spec(namespace: Seq<char>) -> Option<Seq<char>> {
    if namespace.len() == 0 || namespace == na_text() {
        None
    } else {
        Some(namespace)
    }
}

/// The namespace a row's target carries: none for an empty namespace or
/// `"N/A"`.
pub fn namespace_value(namespace: &str) -> (r: Option<String>)
    ensures
        opt_view(r) == namespace_value_spec(namespace@),
{
    let missing = na();
    if char_count(namespace) == 0 || str_eq(namespace, missing.as_str()) {
        None
    } else {
        Some(namespace.to_owned())
    }
}

/// The text of an optional namespace, empty when there is none.
pub open spec fn or_empty(o: Option<Seq<char>>) -> Seq<char> {
    match o {
        Some(t) => t,
        None => Seq::empty(),
    }
}

/// The text of an optional namespace, empty when there is none.
pub fn text_or_empty(o: &Option<String>) -> (r: &str)
    ensures
        r@ == or_empty(opt_view(*o)),
{
    match o {
        Some(t) => t.as_str(),
        None => {
            let empty = "";
            proof {
                reveal_strlit("");
            }
            empty
        },
    }
}

/// `type=status` for each condition of `status.conditions`, joined, or
/// `"N/A"`.
pub open spec fn condition_summary_spec(raw: JsonValue) -> Seq<char> {
    joined_or_na(
        conditions_spec(member(member(Some(raw), "status"@), "conditions"@)).map_values(
            |c: (Seq<char>, Seq<char>, Seq<char>, Seq<char>)| c.0 + seq!['='] + c.1,
        ),
    )
}

/// `type=status` for each condition, joined with `", "`, or `"N/A"`.
pub fn condition_summary(raw: &JsonValue) -> (r: String)
    ensures
        r@ == condition_summary_spec(*raw),
{
    let conditions = condition_describes(member_of(raw.get("status"), "conditions"));
    let ghost cv = conditions_view(conditions@);
    let ghost lines = cv.map_values(|c: (Seq<char>, Seq<char>, Seq<char>, Seq<char>)| c.0 + seq!['='] + c.1);
    let mut out: Vec<String> = Vec::new();
    let mut i: usize = 0;
    while i < conditions.len()
        invariant
            i <= conditions@.len(),
            cv == conditions_view(conditions@),
            lines == cv.map_values(|c: (Seq<char>, Seq<char>, Seq<char>, Seq<char>)| c.0 + seq!['='] + c.1),
            texts_view(out@) == lines.take(i as int),
        decreases conditions@.len() - i,
    {
        let c = &conditions[i];
        let mut line = c.condition_type.clone();
        push_char(&mut line, '=');
        push_str(&mut line, c.status.as_str());
        assert(cv[i as int] == c@);
        assert(line@ == lines[i as int]);
        let ghost before = out@;
        out.push(line);
        assert(texts_view(out@) =~= texts_view(before).push(line@));
        assert(texts_view(out@) =~= lines.take(i + 1));
        i = i + 1;
    }
    assert(lines.take(i as int) =~= lines);
    join_or_na(&out)
}

/// The images of the containers that name one, in order.
pub open spec fn images_of(items: Seq<JsonValue>) -> Seq<Seq<char>>
    decreases items.len(),
{
    if items.len() == 0 {
        Seq::empty()
    } else {
        let rest = images_of(items.drop_last());
        match field_text(items.last(), "image"@) {
            Some(image) => rest.push(image),
            None => rest,
        }
    }
}

/// An array's items; none when it is not an array.
pub open spec fn items_or_empty(v: Option<JsonValue>) -> Seq<JsonValue> {
    match json_as_array(v) {
        Some(items) => items,
        None => Seq::empty(),
    }
}

/// The containers of a pod template at `spec.template.spec.containers`.
pub open spec fn template_containers(raw: JsonValue) -> Seq<JsonValue> {
    items_or_empty(member(member(member(member(Some(raw), "spec"@), "template"@), "spec"@), "containers"@))
}

/// The pod template's container images joined, or `"N/A"`.
pub open spec fn container_images_spec(raw: JsonValue) -> Seq<char> {
    joined_or_na(images_of(template_containers(raw)))
}

/// The pod template's container images joined with `", "`, or `"N/A"`.
pub fn container_images(raw: &JsonValue) -> (r: String)
    ensures
        r@ == container_images_spec(*raw),
{
    let containers = array_of(member_of(member_of(member_of(raw.get("spec"), "template"), "spec"), "containers"));
    let mut out: Vec<String> = Vec::new();
    match containers {
        None => {},
        Some(items) => {
            let mut i: usize = 0;
            while i < items.len()
                invariant
                    i <= items@.len(),
                    texts_view(out@) == images_of(items@.take(i as int)),
                decreases items@.len() - i,
            {
                assert(items@.take(i + 1).drop_last() =~= items@.take(i as int));
                assert(items@.take(i + 1).last() == items@[i as int]);
                match text_of(items[i].get("image")) {
                    Some(image) => {
                        let ghost before = out@;
                        out.push(image.to_owned());
                        assert(texts_view(out@) =~= texts_view(before).push(image@));
                    },
                    None => {},
                }
                i = i + 1;
            }
            assert(items@.take(i as int) =~= items@);
        },
    }
    join_or_na(&out)
}

/// The `key=value` lines of a map value, joined, or `"N/A"`.
pub open spec fn selector_label_spec(value: Option<JsonValue>) -> Seq<char> {
    joined_or_na(entry_lines(map_entries_spec(value)))
}

/// The `key=value` lines of a map value joined with `", "`, or `"N/A"`.
pub fn selector_label_of(value: Option<&JsonValue>) -> (r: String)
    ensures
        r@ == selector_label_spec(opt_value(value)),
{
    let lines = string_map_lines(value);
    join_or_na(&lines)
}

/// `current/desired`, with `"N/A"` for an unknown desired count.
pub open spec fn replica_ratio_spec(current: u64, desired: Option<u64>) -> Seq<char> {
    crate::text::decimal(current as nat) + seq!['/'] + match desired {
        Some(d) => crate::text::decimal(d as nat),
        None => na_text(),
    }
}

/// `current/desired`, with `"N/A"` for an unknown desired count.
pub fn replica_ratio(current: u64, desired: Option<u64>) -> (r: String)
    ensures
        r@ == replica_ratio_spec(current, desired),
{
    let mut s = crate::text::u64_to_string(current);
    push_char(&mut s, '/');
    match desired {
        Some(d) => crate::text::push_decimal(&mut s, d),
        None => {
            let missing = na();
            push_str(&mut s, missing.as_str());
        },
    }
    s
}


// ---------------------------------------------------------------------------
// Applying a manifest
// ---------------------------------------------------------------------------

/// A manifest ready to apply: the namespace and name it names, and itself.
pub struct ParsedResourceApply {
    pub namespace: Option<String>,
    pub name: String,
    pub manifest: JsonValue,
}

/// A text that holds more than white space.
pub open spec fn not_blank(t: Seq<char>) -> bool {
    trim_seq(t).len() > 0
}

/// Whether a text holds more than white space.
pub fn is_not_blank(t: &str) -> (r: bool)
    ensures
        r == not_blank(t@),
{
    let trimmed = trim_str(t);
    char_count(trimmed.as_str()) > 0
}

/// The namespace a manifest is applied in: for namespaced kinds its own
/// non-blank namespace, else the default; none for cluster scoped kinds.
pub open spec fn apply_namespace(manifest: JsonValue, namespaced: bool, default: Option<Seq<char>>) -> Option<Seq<char>> {
    if namespaced {
        match metadata_text(manifest, "namespace"@) {
            Some(ns) => if not_blank(ns) { Some(ns) } else { default },
            None => default,
        }
    } else {
        None
    }
}

/// The error for a manifest without a name.
pub open spec fn name_required() -> Seq<char> {
    "metadata.name is required"@
}

/// A parsed manifest checked for applying: it needs a non-blank
/// `metadata.name`; parse errors pass through.
pub open spec fn apply_ok(parsed: Result<JsonValue, String>, namespaced: bool, default: Option<Seq<char>>, r: Result<ParsedResourceApply, String>) -> bool {
    match parsed {
        Err(e) => r == Err::<ParsedResourceApply, String>(e),
        Ok(manifest) => match metadata_text(manifest, "name"@) {
            Some(name) if not_blank(name) => r matches Ok(p) && p.name@ == name && p.manifest == manifest
                && opt_view(p.namespace) == apply_namespace(manifest, namespaced, default),
            _ => r matches Err(e) && e@ == name_required(),
        },
    }
}

/// Checks a parsed manifest for applying: it must name the object; the
/// namespace is the manifest's own for namespaced kinds, else the default.
pub fn parse_resource_apply(parsed: Result<JsonValue, String>, namespaced: bool, namespace_default: Option<&str>) -> (r: Result<ParsedResourceApply, String>)
    ensures
        apply_ok(parsed, namespaced, opt_text(namespace_default), r),
{
    let manifest = match parsed {
        Err(e) => return Err(e),
        Ok(m) => m,
    };
    let name = match metadata_str(&manifest, "name") {
        Some(n) => {
            if is_not_blank(n) {
                n.to_owned()
            } else {
                return Err("metadata.name is required".to_owned());
            }
        },
        None => return Err("metadata.name is required".to_owned()),
    };
    let namespace = if namespaced {
        match metadata_str(&manifest, "namespace") {
            Some(ns) => {
                if is_not_blank(ns) {
                    Some(ns.to_owned())
                } else {
                    match namespace_default {
                        Some(d) => Some(d.to_owned()),
                        None => None,
                    }
                }
            },
            None => match namespace_default {
                Some(d) => Some(d.to_owned()),
                None => None,
            },
        }
    } else {
        None
    };
    Ok(ParsedResourceApply { namespace, name, manifest })
}

// ---------------------------------------------------------------------------
// Paths and values
// ---------------------------------------------------------------------------

/// A member path of three names.
pub open spec fn at3(v: Option<JsonValue>, a: Seq<char>, b: Seq<char>, c: Seq<char>) -> Option<JsonValue> {
    member(member(member(v, a), b), c)
}

/// A member path of two names.
pub open spec fn at2(v: Option<JsonValue>, a: Seq<char>, b: Seq<char>) -> Option<JsonValue> {
    member(member(v, a), b)
}

/// A value as text (strings as themselves), or `"N/A"` when missing.
pub open spec fn value_or_na(v: Option<JsonValue>) -> Seq<char> {
    match v {
        Some(x) => display_text(x),
        None => na_text(),
    }
}

/// A value as text (strings as themselves), or `"N/A"` when missing.
pub fn int_or_string(v: Option<&JsonValue>) -> (r: String)
    ensures
        r@ == value_or_na(opt_value(v)),
{
    match v {
        Some(x) => x.display_string(),
        None => na(),
    }
}

/// The first value that is there.
pub open spec fn first_value(a: Option<JsonValue>, b: Option<JsonValue>) -> Option<JsonValue> {
    match a {
        Some(x) => Some(x),
        None => b,
    }
}

/// The member at a path of three names.
pub fn at3_of<'a>(v: Option<&'a JsonValue>, a: &str, b: &str, c: &str) -> (r: Option<&'a JsonValue>)
    ensures
        opt_value(r) == at3(opt_value(v), a@, b@, c@),
{
    member_of(member_of(member_of(v, a), b), c)
}


// ---------------------------------------------------------------------------
// Container templates
// ---------------------------------------------------------------------------

/// The views of a list of describe fields.
pub open spec fn fields_view(v: Seq<DescribeField>) -> Seq<(Seq<char>, Seq<char>)> {
    v.map_values(|f: DescribeField| (f.label@, f.value@))
}

/// What a container's describe view shows.
pub ghost struct ContainerView {
    pub name: Seq<char>,
    pub image: Seq<char>,
    pub resources: Seq<(Seq<char>, Seq<char>)>,
    pub ports: Seq<char>,
    pub env_count: Seq<char>,
    pub volume_mounts: Seq<char>,
    pub probes: Seq<(Seq<char>, Seq<char>)>,
}

impl View for ContainerTemplateDescribe {
    type V = ContainerView;

    open spec fn view(&self) -> ContainerView {
        ContainerView {
            name: self.name@,
            image: self.image@,
            resources: fields_view(self.resources@),
            ports: self.ports@,
            env_count: self.env_count@,
            volume_mounts: self.volume_mounts@,
            probes: fields_view(self.probes@),
        }
    }
}

/// A container port: `name:port/protocol`, or `port/protocol` without a
/// name (`N/A` without a port, `TCP` without a protocol).
pub open spec fn port_text(p: JsonValue) -> Seq<char> {
    let number = value_or_na(json_get(p, "containerPort"@));
    let protocol = match field_text(p, "protocol"@) {
        Some(t) => t,
        None => "TCP"@,
    };
    match field_text(p, "name"@) {
        Some(name) => name + seq![':'] + number + seq!['/'] + protocol,
        None => number + seq!['/'] + protocol,
    }
}

/// A volume mount: `name at path`, each `N/A` when missing.
pub open spec fn mount_text(m: JsonValue) -> Seq<char> {
    or_na(field_text(m, "name"@)) + " at "@ + or_na(field_text(m, "mountPath"@))
}

/// The texts of a list member, joined, or `"N/A"` when it is missing,
/// not a list, or empty.
pub open spec fn list_text(c: JsonValue, key: Seq<char>, item: spec_fn(JsonValue) -> Seq<char>) -> Seq<char> {
    match json_as_array(json_get(c, key)) {
        Some(items) => joined_or_na(items.map_values(item)),
        None => na_text(),
    }
}

/// `<n> vars` for the container's environment (`0 vars` without one).
pub open spec fn env_count_text(c: JsonValue) -> Seq<char> {
    match json_as_array(json_get(c, "env"@)) {
        Some(items) => crate::text::decimal(items.len()) + " vars"@,
        None => "0 vars"@,
    }
}

/// A probe: the check icon and `configured`, or `"N/A"` without one.
pub open spec fn probe_text(c: JsonValue, key: Seq<char>) -> Seq<char> {
    if json_get(c, key) is Some {
        crate::status::check_icon() + " configured"@
    } else {
        na_text()
    }
}

/// What a container of a pod template is shown as.
pub open spec fn container_view(c: JsonValue) -> ContainerView {
    ContainerView {
        name: or_na(field_text(c, "name"@)),
        image: or_na(field_text(c, "image"@)),
        resources: seq![
            ("CPU request"@, value_or_na(at3(Some(c), "resources"@, "requests"@, "cpu"@))),
            ("CPU limit"@, value_or_na(at3(Some(c), "resources"@, "limits"@, "cpu"@))),
            ("Memory request"@, value_or_na(at3(Some(c), "resources"@, "requests"@, "memory"@))),
            ("Memory limit"@, value_or_na(at3(Some(c), "resources"@, "limits"@, "memory"@))),
        ],
        ports: list_text(c, "ports"@, |p: JsonValue| port_text(p)),
        env_count: env_count_text(c),
        volume_mounts: list_text(c, "volumeMounts"@, |m: JsonValue| mount_text(m)),
        probes: seq![
            ("Liveness"@, probe_text(c, "livenessProbe"@)),
            ("Readiness"@, probe_text(c, "readinessProbe"@)),
            ("Startup"@, probe_text(c, "startupProbe"@)),
        ],
    }
}

/// A container port's text.
pub fn port_line(p: &JsonValue) -> (r: String)
    ensures
        r@ == port_text(*p),
{
    let number = int_or_string(p.get("containerPort"));
    let protocol = match text_of(p.get("protocol")) {
        Some(t) => t,
        None => "TCP",
    };
    let mut s = match text_of(p.get("name")) {
        Some(name) => {
            let mut t = name.to_owned();
            push_char(&mut t, ':');
            t
        },
        None => String::new(),
    };
    push_str(&mut s, number.as_str());
    push_char(&mut s, '/');
    push_str(&mut s, protocol);
    s
}

/// A volume mount's text.
pub fn mount_line(m: &JsonValue) -> (r: String)
    ensures
        r@ == mount_text(*m),
{
    let mut s = text_or_na(text_of(m.get("name")));
    push_str(&mut s, " at ");
    let path = text_or_na(text_of(m.get("mountPath")));
    push_str(&mut s, path.as_str());
    s
}

/// The container's ports, joined, or `"N/A"`.
pub fn container_ports(c: &JsonValue) -> (r: String)
    ensures
        r@ == list_text(*c, "ports"@, |p: JsonValue| port_text(p)),
{
    match array_of(c.get("ports")) {
        None => na(),
        Some(items) => {
            let ghost lines = items@.map_values(|p: JsonValue| port_text(p));
            let mut out: Vec<String> = Vec::new();
            let mut i: usize = 0;
            while i < items.len()
                invariant
                    i <= items@.len(),
                    lines == items@.map_values(|p: JsonValue| port_text(p)),
                    texts_view(out@) == lines.take(i as int),
                decreases items@.len() - i,
            {
                let line = port_line(&items[i]);
                let ghost before = out@;
                out.push(line);
                assert(texts_view(out@) =~= texts_view(before).push(line@));
                assert(texts_view(out@) =~= lines.take(i + 1));
                i = i + 1;
            }
            assert(lines.take(i as int) =~= lines);
            join_or_na(&out)
        },
    }
}

/// The container's volume mounts, joined, or `"N/A"`.
pub fn container_volume_mounts(c: &JsonValue) -> (r: String)
    ensures
        r@ == list_text(*c, "volumeMounts"@, |m: JsonValue| mount_text(m)),
{
    match array_of(c.get("volumeMounts")) {
        None => na(),
        Some(items) => {
            let ghost lines = items@.map_values(|m: JsonValue| mount_text(m));
            let mut out: Vec<String> = Vec::new();
            let mut i: usize = 0;
            while i < items.len()
                invariant
                    i <= items@.len(),
                    lines == items@.map_values(|m: JsonValue| mount_text(m)),
                    texts_view(out@) == lines.take(i as int),
                decreases items@.len() - i,
            {
                let line = mount_line(&items[i]);
                let ghost before = out@;
                out.push(line);
                assert(texts_view(out@) =~= texts_view(before).push(line@));
                assert(texts_view(out@) =~= lines.take(i + 1));
                i = i + 1;
            }
            assert(lines.take(i as int) =~= lines);
            join_or_na(&out)
        },
    }
}

/// A probe's text.
pub fn probe_label(c: &JsonValue, key: &str) -> (r: String)
    ensures
        r@ == probe_text(*c, key@),
{
    if c.get(key).is_some() {
        let mut s = crate::status::check().to_owned();
        push_str(&mut s, " configured");
        s
    } else {
        na()
    }
}

/// A value at a path of three names as text, or `"N/A"`.
pub fn value_at3(c: &JsonValue, a: &str, b: &str, d: &str) -> (r: String)
    ensures
        r@ == value_or_na(at3(Some(*c), a@, b@, d@)),
{
    int_or_string(at3_of(Some(c), a, b, d))
}

/// The describe view of one container.
pub fn container_template_describe(c: &JsonValue) -> (r: ContainerTemplateDescribe)
    ensures
        r@ == container_view(*c),
{
    let mut resources: Vec<DescribeField> = Vec::new();
    resources.push(DescribeField { label: "CPU request".to_owned(), value: value_at3(c, "resources", "requests", "cpu") });
    resources.push(DescribeField { label: "CPU limit".to_owned(), value: value_at3(c, "resources", "limits", "cpu") });
    resources.push(DescribeField { label: "Memory request".to_owned(), value: value_at3(c, "resources", "requests", "memory") });
    resources.push(DescribeField { label: "Memory limit".to_owned(), value: value_at3(c, "resources", "limits", "memory") });
    let env_count = match array_of(c.get("env")) {
        Some(items) => {
            let mut t = crate::text::u64_to_string(items.len() as u64);
            push_str(&mut t, " vars");
            t
        },
        None => "0 vars".to_owned(),
    };
    let mut probes: Vec<DescribeField> = Vec::new();
    probes.push(DescribeField { label: "Liveness".to_owned(), value: probe_label(c, "livenessProbe") });
    probes.push(DescribeField { label: "Readiness".to_owned(), value: probe_label(c, "readinessProbe") });
    probes.push(DescribeField { label: "Startup".to_owned(), value: probe_label(c, "startupProbe") });
    let r = ContainerTemplateDescribe {
        name: text_or_na(text_of(c.get("name"))),
        image: text_or_na(text_of(c.get("image"))),
        resources,
        ports: container_ports(c),
        env_count,
        volume_mounts: container_volume_mounts(c),
        probes,
    };
    assert(r@.resources =~= container_view(*c).resources);
    assert(r@.probes =~= container_view(*c).probes);
    r
}

/// The views of a list of container describes.
pub open spec fn containers_view(v: Seq<ContainerTemplateDescribe>) -> Seq<ContainerView> {
    v.map_values(|c: ContainerTemplateDescribe| c@)
}

/// The describe views of the containers of a containers list; none when it
/// is not a list.
pub open spec fn containers_spec(value: Option<JsonValue>) -> Seq<ContainerView> {
    items_or_empty(value).map_values(|c: JsonValue| container_view(c))
}

/// The describe views of the containers of a containers list.
pub fn container_template_describes(value: Option<&JsonValue>) -> (r: Vec<ContainerTemplateDescribe>)
    ensures
        containers_view(r@) == containers_spec(opt_value(value)),
{
    let mut out: Vec<ContainerTemplateDescribe> = Vec::new();
    match array_of(value) {
        None => {
            assert(containers_view(out@) =~= containers_spec(opt_value(value)));
        },
        Some(items) => {
            let ghost cv = items@.map_values(|c: JsonValue| container_view(c));
            let mut i: usize = 0;
            while i < items.len()
                invariant
                    i <= items@.len(),
                    cv == items@.map_values(|c: JsonValue| container_view(c)),
                    containers_view(out@) == cv.take(i as int),
                decreases items@.len() - i,
            {
                let d = container_template_describe(&items[i]);
                let ghost before = out@;
                out.push(d);
                assert(containers_view(out@) =~= containers_view(before).push(d@));
                assert(containers_view(out@) =~= cv.take(i + 1));
                i = i + 1;
            }
            assert(cv.take(i as int) =~= cv);
        },
    }
    out
}

/// The members of an object other than those named `key`, in order.
pub open spec fn members_without(entries: Seq<(String, JsonValue)>, key: Seq<char>) -> Seq<(String, JsonValue)>
    decreases entries.len(),
{
    if entries.len() == 0 {
        Seq::empty()
    } else {
        let rest = members_without(entries.drop_last(), key);
        if entries.last().0@ == key {
            rest
        } else {
            rest.push(entries.last())
        }
    }
}

/// Drops the members named `key`, keeping the others in order.
pub fn remove_members(entries: Vec<(String, JsonValue)>, key: &str) -> (r: Vec<(String, JsonValue)>)
    ensures
        r@ == members_without(entries@, key@),
{
    let ghost orig = entries@;
    let mut rest = entries;
    let mut done: Vec<(String, JsonValue)> = Vec::new();
    while rest.len() > 0
        invariant
            members_without(orig, key@) == members_without(rest@, key@) + done@,
        decreases rest@.len(),
    {
        let ghost before = rest@;
        let ghost before_done = done@;
        let e = rest.pop().unwrap();
        proof {
            assert(rest@ =~= before.drop_last());
            assert(e == before.last());
        }
        if !str_eq(e.0.as_str(), key) {
            done.insert(0, e);
            assert(members_without(rest@, key@) + done@ =~= members_without(rest@, key@).push(e) + before_done);
        }
    }
    assert(members_without(rest@, key@) =~= Seq::<(String, JsonValue)>::empty());
    assert(done@ =~= members_without(orig, key@));
    done
}

/// The metadata members that the cluster keeps for itself, gone:
/// `creationTimestamp`, `resourceVersion`, `uid` and `managedFields`.
pub open spec fn without_server_fields(metadata: Seq<(String, JsonValue)>) -> Seq<(String, JsonValue)> {
    members_without(
        members_without(
            members_without(members_without(metadata, "creationTimestamp"@), "resourceVersion"@),
            "uid"@,
        ),
        "managedFields"@,
    )
}

/// A member of the edited manifest against the member it came from: the
/// `metadata` object loses the fields the cluster sets; anything else is
/// kept.
pub open spec fn editable_member_ok(before: (String, JsonValue), after: (String, JsonValue)) -> bool {
    &&& after.0 == before.0
    &&& if before.0@ == "metadata"@ && before.1 is Object {
        after.1 matches JsonValue::Object(ms) && ms@ == without_server_fields(before.1->Object_0@)
    } else {
        after.1 == before.1
    }
}

/// The manifest as the edit dialog shows it: an object loses its `status`
/// member and the metadata fields that the cluster sets; any other value is
/// kept as it is.
pub open spec fn editable_manifest_ok(raw: JsonValue, r: JsonValue) -> bool {
    match raw {
        JsonValue::Object(entries) => r matches JsonValue::Object(out) && {
            let kept = members_without(entries@, "status"@);
            &&& out@.len() == kept.len()
            &&& forall|i: int| 0 <= i < kept.len() ==> #[trigger] editable_member_ok(kept[i], out@[i])
        },
        _ => r == raw,
    }
}

/// One member of the edited manifest.
fn editable_member(e: (String, JsonValue)) -> (r: (String, JsonValue))
    ensures
        editable_member_ok(e, r),
{
    let (k, v) = e;
    if str_eq(k.as_str(), "metadata") {
        match v {
            JsonValue::Object(ms) => {
                let ms = remove_members(ms, "creationTimestamp");
                let ms = remove_members(ms, "resourceVersion");
                let ms = remove_members(ms, "uid");
                (k, JsonValue::Object(remove_members(ms, "managedFields")))
            },
            other => (k, other),
        }
    } else {
        (k, v)
    }
}

/// The manifest as the edit dialog shows it: without the `status` member
/// and the metadata fields that the cluster sets.
pub fn editable_manifest(raw: JsonValue) -> (r: JsonValue)
    ensures
        editable_manifest_ok(raw, r),
{
    match raw {
        JsonValue::Object(entries) => {
            let kept = remove_members(entries, "status");
            let ghost k = kept@;
            let mut rest = kept;
            let mut out: Vec<(String, JsonValue)> = Vec::new();
            while rest.len() > 0
                invariant
                    rest@.len() + out@.len() == k.len(),
                    rest@ == k.take(rest@.len() as int),
                    forall|j: int| 0 <= j < out@.len() ==> #[trigger] editable_member_ok(k[rest@.len() + j], out@[j]),
                decreases rest@.len(),
            {
                let ghost before = rest@;
                let ghost before_out = out@;
                let e = rest.pop().unwrap();
                proof {
                    assert(rest@ =~= before.drop_last());
                    assert(rest@ =~= k.take(rest@.len() as int));
                    assert(e == k[rest@.len() as int]);
                }
                let m = editable_member(e);
                out.insert(0, m);
                assert forall|j: int| 0 <= j < out@.len() implies #[trigger] editable_member_ok(k[rest@.len() + j], out@[j]) by {
                    if j > 0 {
                        assert(out@[j] == before_out[j - 1]);
                        assert(editable_member_ok(k[before.len() + (j - 1)], before_out[j - 1]));
                    }
                }
            }
            assert forall|i: int| 0 <= i < k.len() implies #[trigger] editable_member_ok(k[i], out@[i]) by {
                assert(editable_member_ok(k[rest@.len() + i], out@[i]));
            }
            JsonValue::Object(out)
        },
        other => other,
    }
}

/// Member lookup in a member list with one more member at its end.
pub proof fn lemma_entries_get_push(xs: Seq<(String, JsonValue)>, e: (String, JsonValue), k: Seq<char>)
    ensures
        entries_get(xs.push(e), k) == match entries_get(xs, k) {
            Some(v) => Some(v),
            None => if e.0@ == k {
                Some(e.1)
            } else {
                None
            },
        },
    decreases xs.len(),
{
    assert(xs.push(e).len() > 0);
    if xs.len() > 0 {
        assert(xs.push(e)[0] == xs[0]);
        assert(xs.push(e).drop_first() =~= xs.drop_first().push(e));
        lemma_entries_get_push(xs.drop_first(), e, k);
        if xs[0].0@ != k {
            assert(entries_get(xs, k) == entries_get(xs.drop_first(), k));
            assert(entries_get(xs.push(e), k) == entries_get(xs.push(e).drop_first(), k));
        }
    } else {
        assert(xs.push(e)[0] == e);
        assert(xs.push(e).drop_first() =~= Seq::<(String, JsonValue)>::empty());
    }
}

/// Without the members named `key`, looking `key` up finds nothing and
/// looking up any other name finds what it found before.
pub proof fn lemma_members_without_get(es: Seq<(String, JsonValue)>, key: Seq<char>, k: Seq<char>)
    ensures
        entries_get(members_without(es, key), k) == if k == key {
            None
        } else {
            entries_get(es, k)
        },
    decreases es.len(),
{
    if es.len() > 0 {
        let dl = es.drop_last();
        let last = es.last();
        lemma_members_without_get(dl, key, k);
        assert(es =~= dl.push(last));
        lemma_entries_get_push(dl, last, k);
        if last.0@ != key {
            lemma_entries_get_push(members_without(dl, key), last, k);
        }
    }
}

/// Lookups in the metadata without the fields the cluster sets.
pub proof fn lemma_without_server_fields_get(m: Seq<(String, JsonValue)>, k: Seq<char>)
    ensures
        entries_get(without_server_fields(m), k) == if k == "creationTimestamp"@ || k == "resourceVersion"@ || k == "uid"@
            || k == "managedFields"@ {
            None
        } else {
            entries_get(m, k)
        },
{
    let m1 = members_without(m, "creationTimestamp"@);
    let m2 = members_without(m1, "resourceVersion"@);
    let m3 = members_without(m2, "uid"@);
    lemma_members_without_get(m, "creationTimestamp"@, k);
    lemma_members_without_get(m1, "resourceVersion"@, k);
    lemma_members_without_get(m2, "uid"@, k);
    lemma_members_without_get(m3, "managedFields"@, k);
}

/// Lookups in an edited member list find the edited form of what the
/// unedited list holds.
pub proof fn lemma_entries_get_edited(a: Seq<(String, JsonValue)>, b: Seq<(String, JsonValue)>, k: Seq<char>)
    requires
        a.len() == b.len(),
        forall|i: int| 0 <= i < a.len() ==> #[trigger] editable_member_ok(a[i], b[i]),
    ensures
        entries_get(a, k) is None ==> entries_get(b, k) is None,
        entries_get(a, k) matches Some(v) ==> entries_get(b, k) matches Some(w) && if k == "metadata"@ && v is Object {
            w matches JsonValue::Object(ms) && ms@ == without_server_fields(v->Object_0@)
        } else {
            w == v
        },
    decreases a.len(),
{
    if a.len() > 0 {
        assert(editable_member_ok(a[0], b[0]));
        assert forall|i: int| 0 <= i < a.drop_first().len() implies #[trigger] editable_member_ok(a.drop_first()[i], b.drop_first()[i]) by {
            assert(editable_member_ok(a[i + 1], b[i + 1]));
        }
        lemma_entries_get_edited(a.drop_first(), b.drop_first(), k);
    }
}

/// The manifest the edit dialog shows has no `status` member and no
/// metadata field that the cluster sets, and keeps every other member of
/// the manifest and of its metadata as it was.
pub proof fn law_editable_manifest_drops_server_fields(raw: JsonValue, r: JsonValue, k: Seq<char>)
    requires
        editable_manifest_ok(raw, r),
        raw is Object,
    ensures
        r is Object,
        json_get(r, "status"@) is None,
        k != "status"@ && k != "metadata"@ ==> json_get(r, k) == json_get(raw, k),
        json_get(raw, "metadata"@) matches Some(JsonValue::Object(m)) ==> {
            &&& json_get(r, "metadata"@) matches Some(JsonValue::Object(m2))
            &&& entries_get(m2@, "creationTimestamp"@) is None
            &&& entries_get(m2@, "resourceVersion"@) is None
            &&& entries_get(m2@, "uid"@) is None
            &&& entries_get(m2@, "managedFields"@) is None
            &&& (k != "creationTimestamp"@ && k != "resourceVersion"@ && k != "uid"@ && k != "managedFields"@
                ==> entries_get(m2@, k) == entries_get(m@, k))
        },
{
    reveal_strlit("status");
    reveal_strlit("metadata");
    reveal_strlit("creationTimestamp");
    reveal_strlit("resourceVersion");
    reveal_strlit("uid");
    reveal_strlit("managedFields");
    assert("metadata"@ != "status"@) by {
        assert("metadata"@.len() != "status"@.len());
    }
    let entries = raw->Object_0@;
    let out = r->Object_0@;
    let kept = members_without(entries, "status"@);
    lemma_entries_get_edited(kept, out, "status"@);
    lemma_members_without_get(entries, "status"@, "status"@);
    lemma_entries_get_edited(kept, out, k);
    lemma_members_without_get(entries, "status"@, k);
    lemma_entries_get_edited(kept, out, "metadata"@);
    lemma_members_without_get(entries, "status"@, "metadata"@);
    match json_get(raw, "metadata"@) {
        Some(JsonValue::Object(m)) => {
            lemma_without_server_fields_get(m@, "creationTimestamp"@);
            lemma_without_server_fields_get(m@, "resourceVersion"@);
            lemma_without_server_fields_get(m@, "uid"@);
            lemma_without_server_fields_get(m@, "managedFields"@);
            lemma_without_server_fields_get(m@, k);
        },
        _ => {},
    }
}

/// How a status is coloured: healthy, in progress, failing, or plain.
#[derive(Clone, Copy, Debug, PartialEq, Eq, Structural)]
pub enum StatusTone {
    Healthy,
    InProgress,
    Failing,
    Plain,
}

/// The tone of a condition or phase status.
pub open spec fn condition_tone_spec(status: Seq<char>) -> StatusTone {
    if status == "True"@ || status == "Available"@ || status == "Ready"@ || status == "Running"@ || status == "Complete"@ {
        StatusTone::Healthy
    } else if status == "False"@ || status == "Progressing"@ || status == "Waiting"@ || status == "Pending"@
        || status == "Suspended"@ {
        StatusTone::InProgress
    } else if status == "Unknown"@ || status == "Terminated"@ || status == "Failed"@ || status == "Error"@ {
        StatusTone::Failing
    } else {
        StatusTone::Plain
    }
}

/// The tone a condition or phase status is shown in.
pub fn condition_tone(status: &str) -> (r: StatusTone)
    ensures
        r == condition_tone_spec(status@),
{
    if str_eq(status, "True") || str_eq(status, "Available") || str_eq(status, "Ready") || str_eq(status, "Running")
        || str_eq(status, "Complete") {
        StatusTone::Healthy
    } else if str_eq(status, "False") || str_eq(status, "Progressing") || str_eq(status, "Waiting")
        || str_eq(status, "Pending") || str_eq(status, "Suspended") {
        StatusTone::InProgress
    } else if str_eq(status, "Unknown") || str_eq(status, "Terminated") || str_eq(status, "Failed")
        || str_eq(status, "Error") {
        StatusTone::Failing
    } else {
        StatusTone::Plain
    }
}

/// The tone an event type is shown in: normal events as healthy, warnings
/// as in progress, anything else plain.
pub fn event_type_tone(event_type: &str) -> (r: StatusTone)
    ensures
        r == (if event_type@ == "Normal"@ {
            StatusTone::Healthy
        } else if event_type@ == "Warning"@ {
            StatusTone::InProgress
        } else {
            StatusTone::Plain
        }),
{
    if str_eq(event_type, "Normal") {
        StatusTone::Healthy
    } else if str_eq(event_type, "Warning") {
        StatusTone::InProgress
    } else {
        StatusTone::Plain
    }
}
/// Every table names an object by its manifest: the name is
/// `metadata.name` when it is text, else the listed name; the namespace is
/// `metadata.namespace` when it is text, else the listed namespace, else
/// `"N/A"`; the age is that of `metadata.creationTimestamp`, `"N/A"`
/// without one.
pub proof fn law_summary_names_and_age(s: ResourceSummary, now: int)
    ensures
        summary_name(s) == match json_as_str(at2(Some(s.raw), "metadata"@, "name"@)) {
            Some(n) => n,
            None => s.name@,
        },
        summary_namespace(s) == match json_as_str(at2(Some(s.raw), "metadata"@, "namespace"@)) {
            Some(n) => n,
            None => match s.namespace {
                Some(n) => n@,
                None => "N/A"@,
            },
        },
        age_spec(s.raw, now) == match json_as_str(at2(Some(s.raw), "metadata"@, "creationTimestamp"@)) {
            Some(t) => timestamp_text(t, now),
            None => "N/A"@,
        },
{
    reveal_strlit("N/A");
}

/// The images column lists the image of each container of the pod
/// template, in order, joined with `", "`; containers without an image are
/// left out, and `"N/A"` stands for no image at all.
pub proof fn law_container_images_column(raw: JsonValue)
    ensures
        ({
            let containers = json_as_array(at2(at2(Some(raw), "spec"@, "template"@), "spec"@, "containers"@));
            let image = |c: JsonValue| json_as_str(json_get(c, "image"@));
            match containers {
                Some(cs) => {
                    &&& cs.len() == 0 ==> container_images_spec(raw) == "N/A"@
                    &&& cs.len() == 1 ==> container_images_spec(raw) == match image(cs[0]) {
                        Some(i) => i,
                        None => "N/A"@,
                    }
                    &&& cs.len() == 2 && image(cs[0]) is Some && image(cs[1]) is Some
                        ==> container_images_spec(raw) == image(cs[0])->0 + ", "@ + image(cs[1])->0
                },
                None => container_images_spec(raw) == "N/A"@,
            }
        }),
{
    reveal_strlit("N/A");
    reveal_strlit(", ");
    let containers = json_as_array(at2(at2(Some(raw), "spec"@, "template"@), "spec"@, "containers"@));
    let sep = seq![',', ' '];
    assert(sep == ", "@);
    if let Some(cs) = containers {
        assert(template_containers(raw) == cs);
        if cs.len() >= 1 {
            let one = cs.take(1);
            assert(one.drop_last().len() == 0);
            assert(images_of(one.drop_last()) == Seq::<Seq<char>>::empty());
            assert(one.last() == cs[0]);
            if cs.len() == 1 {
                assert(cs == one);
                match field_text(cs[0], "image"@) {
                    Some(i) => {
                        assert(images_of(cs) =~= seq![i]);
                        assert(joined(seq![i], sep) == i);
                    },
                    None => {
                        assert(images_of(cs) =~= Seq::<Seq<char>>::empty());
                    },
                }
            }
            if cs.len() == 2 {
                assert(cs.drop_last() == one);
                assert(cs.last() == cs[1]);
                if field_text(cs[0], "image"@) is Some && field_text(cs[1], "image"@) is Some {
                    let i0 = field_text(cs[0], "image"@)->0;
                    let i1 = field_text(cs[1], "image"@)->0;
                    assert(images_of(one) =~= seq![i0]);
                    assert(images_of(cs) =~= seq![i0, i1]);
                    let ims = seq![i0, i1];
                    assert(ims.drop_last() =~= seq![i0]);
                    assert(joined(ims.drop_last(), sep) == i0);
                    assert(joined(ims, sep) == i0 + sep + i1);
                }
            }
        }
    } else {
        assert(template_containers(raw) == Seq::<JsonValue>::empty());
        assert(images_of(Seq::<JsonValue>::empty()) == Seq::<Seq<char>>::empty());
    }
}

/// The conditions column shows `type=status` for each condition of
/// `status.conditions`, in order, joined with `", "` (`N/A` for a missing
/// type or status), and `"N/A"` without conditions.
pub proof fn law_condition_summary_column(raw: JsonValue)
    ensures
        ({
            let text = |c: JsonValue, k: Seq<char>| match json_as_str(json_get(c, k)) {
                Some(t) => t,
                None => "N/A"@,
            };
            let line = |c: JsonValue| text(c, "type"@) + "="@ + text(c, "status"@);
            match json_as_array(at2(Some(raw), "status"@, "conditions"@)) {
                Some(cs) => {
                    &&& cs.len() == 0 ==> condition_summary_spec(raw) == "N/A"@
                    &&& cs.len() == 1 ==> condition_summary_spec(raw) == line(cs[0])
                    &&& cs.len() == 2 ==> condition_summary_spec(raw) == line(cs[0]) + ", "@ + line(cs[1])
                },
                None => condition_summary_spec(raw) == "N/A"@,
            }
        }),
{
    reveal_strlit("N/A");
    reveal_strlit(", ");
    reveal_strlit("=");
    let conds = json_as_array(at2(Some(raw), "status"@, "conditions"@));
    let sep = seq![',', ' '];
    assert(sep == ", "@);
    if let Some(cs) = conds {
        let lines = conditions_spec(at2(Some(raw), "status"@, "conditions"@)).map_values(
            |c: (Seq<char>, Seq<char>, Seq<char>, Seq<char>)| c.0 + seq!['='] + c.1,
        );
        assert(lines.len() == cs.len());
        if cs.len() >= 1 {
            assert(lines[0] == condition_view(cs[0]).0 + seq!['='] + condition_view(cs[0]).1);
            assert(lines.take(1).drop_last().len() == 0);
        }
        if cs.len() == 1 {
            assert(joined(lines, sep) == lines[0]);
        }
        if cs.len() == 2 {
            assert(lines[1] == condition_view(cs[1]).0 + seq!['='] + condition_view(cs[1]).1);
            assert(lines.drop_last() =~= seq![lines[0]]);
            assert(joined(lines.drop_last(), sep) == lines[0]);
            assert(joined(lines, sep) == lines[0] + sep + lines[1]);
        }
    }
}

/// A selector or label column shows `key=value` for each member of the
/// map; a map of one member shows just that member, and anything that is
/// no map (or an empty one) shows `"N/A"`.
pub proof fn law_selector_column(value: Option<JsonValue>)
    ensures
        match json_as_object(value) {
            Some(entries) => {
                &&& entries.len() == 0 ==> selector_label_spec(value) == "N/A"@
                &&& entries.len() == 1 ==> selector_label_spec(value) == entries[0].0@ + "="@ + display_text(entries[0].1)
            },
            None => selector_label_spec(value) == "N/A"@,
        },
{
    reveal_strlit("N/A");
    reveal_strlit("=");
    if let Some(entries) = json_as_object(value) {
        let vs = entries.map_values(|e: (String, JsonValue)| entry_view(e));
        if entries.len() == 1 {
            assert(vs.drop_last().len() == 0);
            assert(sort_views::<ResourceMapEntry>(vs.drop_last()) == Seq::<(Seq<char>, Seq<char>)>::empty());
            assert(sort_views::<ResourceMapEntry>(vs) =~= seq![vs[0]]);
            assert(entry_lines(seq![vs[0]]) =~= seq![vs[0].0 + seq!['='] + vs[0].1]);
        }
        if entries.len() == 0 {
            assert(vs.len() == 0);
        }
    }
}
} // verus!
