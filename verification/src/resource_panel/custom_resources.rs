//! The custom resources panel: a table of custom resource definitions, and
//! for the expanded definition a table of its objects.
use vstd::prelude::*;
use crate::json::{JsonValue, json_as_array, json_as_bool, json_as_str, json_get, opt_value};
use crate::resource_panel::{
    ClusterId, ResourceActionKind, ResourceActionOutcome, ResourceDeleteTarget, ResourceEvent,
    ResourceList, ResourceLoadKind, ResourceLoadRequest, ResourceRef, ResourceSummary,
    ResourceUiEvent, copy_opt_text, opt_view, texts_view,
};
use crate::resource_panel::components::{
    GenericBatchDeleteDialog, GenericCreateDialog, ManifestViewDialog, ResourceMetadata,
    ResourceRowTarget, array_of, field_has, field_matches, join_or_na, joined_or_na, member,
    member_of, metadata_str, metadata_text, na, na_text, namespace_value, namespace_value_spec,
    or_na, slash_join, slash_key, text_of, text_or_na,
};
use crate::resource_panel::job::{namespace_name_before, namespace_name_less};
use crate::resource_panel::state::{ActionEffect, ActionResult, PanelRow, PanelState};
use crate::resource_panel::table::{TableRow, sort_rows, sort_views, text_less, text_lt, views};
use crate::text::{push_char, push_str, str_eq};
use crate::time::{human_age, human_age_from_rfc3339};



verus! {

// ---------------------------------------------------------------------------
// Definitions
// ---------------------------------------------------------------------------

/// A row of the custom resource definitions table.
pub struct CustomResourceRow {
    pub name: String,
    pub group: String,
    pub kind: String,
    pub plural: String,
    pub scope: String,
    pub versions: String,
    pub storage_version: Option<String>,
    pub age: String,
}

/// What a definition row shows.
pub ghost struct CustomResourceRowView {
    pub name: Seq<char>,
    pub group: Seq<char>,
    pub kind: Seq<char>,
    pub plural: Seq<char>,
    pub scope: Seq<char>,
    pub versions: Seq<char>,
    pub storage_version: Option<Seq<char>>,
    pub age: Seq<char>,
}

impl View for CustomResourceRow {
    type V = CustomResourceRowView;

    open spec fn view(&self) -> CustomResourceRowView {
        CustomResourceRowView {
            name: self.name@,
            group: self.group@,
            kind: self.kind@,
            plural: self.plural@,
            scope: self.scope@,
            versions: self.versions@,
            storage_version: opt_view(self.storage_version),
            age: self.age@,
        }
    }
}

impl TableRow for CustomResourceRow {
    open spec fn key_of(v: CustomResourceRowView) -> Seq<char> {
        v.name
    }

    open spec fn ordered_before(a: CustomResourceRowView, b: CustomResourceRowView) -> bool {
        text_lt(a.name, b.name)
    }

    fn row_key(&self) -> (r: &str) {
        self.name.as_str()
    }

    fn before(&self, other: &Self) -> (r: bool) {
        text_less(self.name.as_str(), other.name.as_str())
    }
}

impl PanelRow for CustomResourceRow {
    open spec fn namespace_of(v: CustomResourceRowView) -> Option<Seq<char>> {
        None
    }

    open spec fn name_of(v: CustomResourceRowView) -> Seq<char> {
        v.name
    }

    open spec fn matches_needle(v: CustomResourceRowView, needle: Seq<char>) -> bool {
        ||| needle.len() == 0
        ||| field_matches(v.name, needle)
        ||| field_matches(v.group, needle)
        ||| field_matches(v.kind, needle)
        ||| field_matches(v.plural, needle)
    }

    proof fn lemma_empty_needle_matches(v: CustomResourceRowView) {
    }

    fn target(&self) -> (r: ResourceRowTarget) {
        ResourceRowTarget { key: self.name.clone(), namespace: None, name: self.name.clone() }
    }

    fn matches(&self, needle: &str) -> (r: bool) {
        crate::resource_panel::components::char_count(needle) == 0
            || field_has(self.name.as_str(), needle)
            || field_has(self.group.as_str(), needle)
            || field_has(self.kind.as_str(), needle)
            || field_has(self.plural.as_str(), needle)
    }
}

/// A flag of a version entry, false when missing.
pub open spec fn version_flag(v: JsonValue, key: Seq<char>) -> bool {
    match json_as_bool(json_get(v, key)) {
        Some(b) => b,
        None => false,
    }
}

/// A flag of a version entry, false when missing.
pub fn flag_of(v: &JsonValue, key: &str) -> (r: bool)
    ensures
        r == version_flag(*v, key@),
{
    match v.get(key) {
        Some(x) => match x.as_bool() {
            Some(b) => b,
            None => false,
        },
        None => false,
    }
}

/// The label of each served version that has a name, `(storage)` marking
/// the storage version, in order.
pub open spec fn served_version_labels(versions: Seq<JsonValue>) -> Seq<Seq<char>>
    decreases versions.len(),
{
    if versions.len() == 0 {
        Seq::empty()
    } else {
        let rest = served_version_labels(versions.drop_last());
        let v = versions.last();
        if version_flag(v, "served"@) {
            match json_as_str(json_get(v, "name"@)) {
                Some(name) => rest.push(if version_flag(v, "storage"@) { name + " (storage)"@ } else { name }),
                None => rest,
            }
        } else {
            rest
        }
    }
}

/// The served versions of a definition's spec, joined, or `"N/A"`.
pub open spec fn versions_label_spec(spec: JsonValue) -> Seq<char> {
    match json_as_array(json_get(spec, "versions"@)) {
        Some(versions) => joined_or_na(served_version_labels(versions)),
        None => na_text(),
    }
}

/// The served versions of a definition's spec, joined with `", "`, or
/// `"N/A"`.
pub fn versions_label(spec: &JsonValue) -> (r: String)
    ensures
        r@ == versions_label_spec(*spec),
{
    let mut labels: Vec<String> = Vec::new();
    match array_of(spec.get("versions")) {
        None => {},
        Some(versions) => {
            let mut i: usize = 0;
            while i < versions.len()
                invariant
                    i <= versions@.len(),
                    texts_view(labels@) == served_version_labels(versions@.take(i as int)),
                decreases versions@.len() - i,
            {
                let v = &versions[i];
                assert(versions@.take(i + 1).drop_last() =~= versions@.take(i as int));
                assert(versions@.take(i + 1).last() == *v);
                if flag_of(v, "served") {
                    match text_of(v.get("name")) {
                        Some(name) => {
                            let mut label = name.to_owned();
                            if flag_of(v, "storage") {
                                push_str(&mut label, " (storage)");
                            }
                            let ghost before = labels@;
                            labels.push(label);
                            assert(texts_view(labels@) =~= texts_view(before).push(label@));
                        },
                        None => {},
                    }
                }
                i = i + 1;
            }
            assert(versions@.take(i as int) =~= versions@);
        },
    }
    join_or_na(&labels)
}

/// The index of the first version entry that `storage_too` selects: served
/// and storage when set, served otherwise.
pub open spec fn first_served(versions: Seq<JsonValue>, storage_too: bool) -> Option<int>
    decreases versions.len(),
{
    if versions.len() == 0 {
        None
    } else if version_flag(versions[0], "served"@) && (!storage_too || version_flag(versions[0], "storage"@)) {
        Some(0)
    } else {
        match first_served(versions.drop_first(), storage_too) {
            Some(i) => Some(i + 1),
            None => None,
        }
    }
}

/// The version a definition's objects are read in: the served storage
/// version, else the first served version; its name when it has one.
pub open spec fn selected_version_spec(spec: JsonValue) -> Option<Seq<char>> {
    match json_as_array(json_get(spec, "versions"@)) {
        Some(versions) => {
            let chosen = match first_served(versions, true) {
                Some(i) => Some(i),
                None => first_served(versions, false),
            };
            match chosen {
                Some(i) => json_as_str(json_get(versions[i], "name"@)),
                None => None,
            }
        },
        None => None,
    }
}

proof fn lemma_first_served_bounds(versions: Seq<JsonValue>, storage_too: bool)
    ensures
        first_served(versions, storage_too) matches Some(i) ==> 0 <= i < versions.len(),
    decreases versions.len(),
{
    if versions.len() > 0 {
        lemma_first_served_bounds(versions.drop_first(), storage_too);
    }
}

/// The index of the first version entry that `storage_too` selects.
fn find_served(versions: &Vec<JsonValue>, storage_too: bool) -> (r: Option<usize>)
    ensures
        r matches Some(k) ==> first_served(versions@, storage_too) == Some(k as int) && k < versions@.len(),
        r is None ==> first_served(versions@, storage_too) is None,
{
    let mut i: usize = 0;
    assert(versions@.skip(0) =~= versions@);
    while i < versions.len()
        invariant
            i <= versions@.len(),
            first_served(versions@, storage_too) == match first_served(versions@.skip(i as int), storage_too) {
                Some(j) => Some(i + j),
                None => None,
            },
        decreases versions@.len() - i,
    {
        let v = &versions[i];
        assert(versions@.skip(i as int)[0] == *v);
        if flag_of(v, "served") && (!storage_too || flag_of(v, "storage")) {
            return Some(i);
        }
        assert(versions@.skip(i as int).drop_first() =~= versions@.skip(i + 1));
        i = i + 1;
    }
    assert(versions@.skip(i as int).len() == 0);
    None
}

/// The version a definition's objects are read in.
pub fn selected_crd_version(spec: &JsonValue) -> (r: Option<&str>)
    ensures
        crate::json::opt_text(r) == selected_version_spec(*spec),
{
    match array_of(spec.get("versions")) {
        None => None,
        Some(versions) => {
            proof {
                lemma_first_served_bounds(versions@, true);
                lemma_first_served_bounds(versions@, false);
            }
            let chosen = match find_served(versions, true) {
                Some(i) => Some(i),
                None => find_served(versions, false),
            };
            match chosen {
                Some(i) => {
                    let v = &versions[i];
                    assert(*v == versions@[i as int]);
                    text_of(v.get("name"))
                },
                None => None,
            }
        },
    }
}

/// An object's age at `now`, or `"N/A"` without a parsable creation
/// timestamp.
pub open spec fn strict_age_spec(raw: JsonValue, now: int) -> Seq<char> {
    match metadata_text(raw, "creationTimestamp"@) {
        Some(ts) => match human_age(ts, now) {
            Some(age) => age,
            None => na_text(),
        },
        None => na_text(),
    }
}

/// An object's age at `now`, or `"N/A"`.
pub fn strict_age(raw: &JsonValue, now: i64) -> (r: String)
    ensures
        r@ == strict_age_spec(*raw, now as int),
{
    match metadata_str(raw, "creationTimestamp") {
        Some(ts) => match human_age_from_rfc3339(ts, now) {
            Some(age) => age,
            None => na(),
        },
        None => na(),
    }
}

/// A member of a value, `Null` standing in for a missing value.
pub open spec fn member_or_null(v: JsonValue, key: Seq<char>) -> JsonValue {
    match json_get(v, key) {
        Some(x) => x,
        None => JsonValue::Null,
    }
}

/// The row a listed definition is shown as, at time `now`.
pub open spec fn custom_resource_row_spec(s: ResourceSummary, now: int) -> CustomResourceRowView {
    let spec = member_or_null(s.raw, "spec"@);
    let names = member_or_null(spec, "names"@);
    CustomResourceRowView {
        name: s.name@,
        group: or_na(json_as_str(json_get(spec, "group"@))),
        kind: or_na(json_as_str(json_get(names, "kind"@))),
        plural: or_na(json_as_str(json_get(names, "plural"@))),
        scope: or_na(json_as_str(json_get(spec, "scope"@))),
        versions: versions_label_spec(spec),
        storage_version: selected_version_spec(spec),
        age: strict_age_spec(s.raw, now),
    }
}

/// The row a listed definition is shown as, at time `now`.
pub fn custom_resource_row_from_summary(summary: &ResourceSummary, now: i64) -> (r: CustomResourceRow)
    ensures
        r@ == custom_resource_row_spec(*summary, now as int),
{
    let null = JsonValue::Null;
    let spec = match summary.raw.get("spec") {
        Some(s) => s,
        None => &null,
    };
    let names_null = JsonValue::Null;
    let names = match spec.get("names") {
        Some(n) => n,
        None => &names_null,
    };
    let storage_version = match selected_crd_version(spec) {
        Some(v) => Some(v.to_owned()),
        None => None,
    };
    CustomResourceRow {
        name: summary.name.clone(),
        group: text_or_na(text_of(spec.get("group"))),
        kind: text_or_na(text_of(names.get("kind"))),
        plural: text_or_na(text_of(names.get("plural"))),
        scope: text_or_na(text_of(spec.get("scope"))),
        versions: versions_label(spec),
        storage_version,
        age: strict_age(&summary.raw, now),
    }
}

/// The rows of a definition list, sorted by name.
pub open spec fn custom_resource_rows_spec(items: Seq<ResourceSummary>, now: int) -> Seq<CustomResourceRowView> {
    sort_views::<CustomResourceRow>(items.map_values(|s: ResourceSummary| custom_resource_row_spec(s, now)))
}

/// The rows of a definition list, sorted by name.
pub fn custom_resource_rows_from_items(items: &Vec<ResourceSummary>, now: i64) -> (r: Vec<CustomResourceRow>)
    ensures
        views(r@) == custom_resource_rows_spec(items@, now as int),
{
    let ghost all = items@.map_values(|s: ResourceSummary| custom_resource_row_spec(s, now as int));
    let mut rows: Vec<CustomResourceRow> = Vec::new();
    let mut i: usize = 0;
    while i < items.len()
        invariant
            i <= items@.len(),
            all == items@.map_values(|s: ResourceSummary| custom_resource_row_spec(s, now as int)),
            views(rows@) == all.take(i as int),
        decreases items@.len() - i,
    {
        let row = custom_resource_row_from_summary(&items[i], now);
        let ghost before = rows@;
        rows.push(row);
        assert(views(rows@) =~= views(before).push(row@));
        assert(views(rows@) =~= all.take(i + 1));
        i = i + 1;
    }
    assert(all.take(i as int) =~= all);
    sort_rows(rows)
}

/// The resource a definition row's objects are listed from: its group,
/// read version and plural, namespaced when the scope is `Namespaced`;
/// none without a read version, a group or a plural.
pub open spec fn row_resource_ok(v: CustomResourceRowView) -> bool {
    v.storage_version is Some && v.group != na_text() && v.plural != na_text()
}

impl CustomResourceRow {
    /// The resource the definition's objects are listed from.
    pub fn resource_ref(&self) -> (r: Option<ResourceRef>)
        ensures
            row_resource_ok(self@) <==> r is Some,
            r matches Some(res) ==> {
                &&& opt_view(res.group) == Some(self.group@)
                &&& Some(res.version@) == opt_view(self.storage_version)
                &&& res.plural@ == self.plural@
                &&& res.namespaced == (self.scope@ == "Namespaced"@)
            },
    {
        let version = match &self.storage_version {
            Some(v) => v,
            None => return None,
        };
        let missing = na();
        if str_eq(self.group.as_str(), missing.as_str()) || str_eq(self.plural.as_str(), missing.as_str()) {
            return None;
        }
        let resource = ResourceRef::grouped(self.group.as_str(), version.as_str(), self.plural.as_str());
        if str_eq(self.scope.as_str(), "Namespaced") {
            Some(resource)
        } else {
            Some(resource.cluster_scoped())
        }
    }
}

/// The definitions table's description of what it shows.
pub fn crd_metadata() -> (r: ResourceMetadata)
    ensures
        r.id@ == "custom_resource_definition"@,
        r.title@ == "CustomResourceDefinitions"@,
        r.api_version@ == "apiextensions.k8s.io/v1"@,
        r.kind@ == "CustomResourceDefinition"@,
        opt_view(r.resource.group) == Some("apiextensions.k8s.io"@),
        r.resource.version@ == "v1"@,
        r.resource.plural@ == "customresourcedefinitions"@,
        !r.resource.namespaced,
        !r.namespaced,
{
    ResourceMetadata {
        id: "custom_resource_definition".to_owned(),
        title: "CustomResourceDefinitions".to_owned(),
        api_version: "apiextensions.k8s.io/v1".to_owned(),
        kind: "CustomResourceDefinition".to_owned(),
        resource: ResourceRef::grouped("apiextensions.k8s.io", "v1", "customresourcedefinitions").cluster_scoped(),
        namespaced: false,
    }
}

/// `group/version`, or the version alone for the core group.
pub open spec fn api_version_spec(resource: ResourceRef) -> Seq<char> {
    match opt_view(resource.group) {
        Some(group) => slash_key(group, resource.version@),
        None => resource.version@,
    }
}

/// `group/version`, or the version alone for the core group.
pub fn custom_resource_api_version(resource: &ResourceRef) -> (r: String)
    ensures
        r@ == api_version_spec(*resource),
{
    match &resource.group {
        Some(group) => slash_join(group.as_str(), resource.version.as_str()),
        None => resource.version.clone(),
    }
}

/// The first index at which `a` is followed by `b`.
pub open spec fn find_pair(s: Seq<char>, a: char, b: char) -> Option<int>
    decreases s.len(),
{
    if s.len() < 2 {
        None
    } else if s[0] == a && s[1] == b {
        Some(0)
    } else {
        match find_pair(s.drop_first(), a, b) {
            Some(i) => Some(i + 1),
            None => None,
        }
    }
}

/// The kind in a `"<Kind> (<name>)"` title: the text before the first
/// `" ("`, or the whole title.
pub open spec fn kind_from_title_spec(title: Seq<char>) -> Seq<char> {
    match find_pair(title, ' ', '(') {
        Some(i) => title.take(i),
        None => title,
    }
}

proof fn lemma_find_pair_bounds(s: Seq<char>, a: char, b: char)
    ensures
        find_pair(s, a, b) matches Some(i) ==> 0 <= i && i + 1 < s.len(),
    decreases s.len(),
{
    if s.len() >= 2 && !(s[0] == a && s[1] == b) {
        lemma_find_pair_bounds(s.drop_first(), a, b);
    }
}

/// The kind in a `"<Kind> (<name>)"` title.
pub fn custom_resource_kind_from_title(title: &str) -> (r: String)
    ensures
        r@ == kind_from_title_spec(title@),
{
    let chars = crate::text::chars_of(title);
    let n = chars.len();
    let mut i: usize = 0;
    assert(chars@.skip(0) =~= chars@);
    while n > 0 && i < n - 1
        invariant
            n == chars@.len(),
            chars@ == title@,
            i <= n,
            find_pair(chars@, ' ', '(') == match find_pair(chars@.skip(i as int), ' ', '(') {
                Some(j) => Some(i + j),
                None => None,
            },
        decreases n - i,
    {
        if chars[i] == ' ' && chars[i + 1] == '(' {
            assert(chars@.skip(i as int)[0] == chars@[i as int]);
            assert(chars@.skip(i as int)[1] == chars@[i + 1]);
            let piece = crate::time::copy_range(&chars, 0, i);
            assert(piece@ =~= chars@.take(i as int));
            return crate::text::string_from_chars(piece.as_slice());
        }
        assert(chars@.skip(i as int)[0] == chars@[i as int]);
        assert(chars@.skip(i as int)[1] == chars@[i + 1]);
        assert(chars@.skip(i as int).drop_first() =~= chars@.skip(i + 1));
        i = i + 1;
    }
    assert(chars@.skip(i as int).len() < 2);
    title.to_owned()
}

/// The namespace of an object's target: none for an empty namespace or
/// `"N/A"`.
pub fn custom_resource_namespace_target(namespace: &str) -> (r: Option<String>)
    ensures
        opt_view(r) == namespace_value_spec(namespace@),
{
    namespace_value(namespace)
}

/// `namespace/name` of an object, `"N/A"` standing in for no namespace.
pub open spec fn instance_key_spec(namespace: Option<Seq<char>>, name: Seq<char>) -> Seq<char> {
    slash_key(or_na(namespace), name)
}

/// `namespace/name` of an object, `"N/A"` standing in for no namespace.
pub fn custom_resource_instance_key(namespace: Option<&str>, name: &str) -> (r: String)
    ensures
        r@ == instance_key_spec(crate::json::opt_text(namespace), name@),
{
    match namespace {
        Some(ns) => slash_join(ns, name),
        None => {
            let missing = na();
            slash_join(missing.as_str(), name)
        },
    }
}


// ---------------------------------------------------------------------------
// Objects of an expanded definition
// ---------------------------------------------------------------------------

/// A row of the expanded definition's objects table.
pub struct CustomResourceInstanceRow {
    pub key: String,
    pub name: String,
    pub namespace: String,
    pub kind: String,
    pub status: String,
    pub age: String,
    pub raw: JsonValue,
}

/// What an object row shows.
pub ghost struct CustomResourceInstanceRowView {
    pub key: Seq<char>,
    pub name: Seq<char>,
    pub namespace: Seq<char>,
    pub kind: Seq<char>,
    pub status: Seq<char>,
    pub age: Seq<char>,
    pub raw: JsonValue,
}

impl View for CustomResourceInstanceRow {
    type V = CustomResourceInstanceRowView;

    open spec fn view(&self) -> CustomResourceInstanceRowView {
        CustomResourceInstanceRowView {
            key: self.key@,
            name: self.name@,
            namespace: self.namespace@,
            kind: self.kind@,
            status: self.status@,
            age: self.age@,
            raw: self.raw,
        }
    }
}

impl TableRow for CustomResourceInstanceRow {
    open spec fn key_of(v: CustomResourceInstanceRowView) -> Seq<char> {
        v.key
    }

    open spec fn ordered_before(a: CustomResourceInstanceRowView, b: CustomResourceInstanceRowView) -> bool {
        namespace_name_before(a.namespace, a.name, b.namespace, b.name)
    }

    fn row_key(&self) -> (r: &str) {
        self.key.as_str()
    }

    fn before(&self, other: &Self) -> (r: bool) {
        namespace_name_less(self.namespace.as_str(), self.name.as_str(), other.namespace.as_str(), other.name.as_str())
    }
}

impl PanelRow for CustomResourceInstanceRow {
    open spec fn namespace_of(v: CustomResourceInstanceRowView) -> Option<Seq<char>> {
        namespace_value_spec(v.namespace)
    }

    open spec fn name_of(v: CustomResourceInstanceRowView) -> Seq<char> {
        v.name
    }

    /// The objects table has no search: every row is shown.
    open spec fn matches_needle(v: CustomResourceInstanceRowView, needle: Seq<char>) -> bool {
        true
    }

    proof fn lemma_empty_needle_matches(v: CustomResourceInstanceRowView) {
    }

    fn target(&self) -> (r: ResourceRowTarget) {
        ResourceRowTarget {
            key: self.key.clone(),
            namespace: custom_resource_namespace_target(self.namespace.as_str()),
            name: self.name.clone(),
        }
    }

    fn matches(&self, needle: &str) -> (r: bool) {
        true
    }
}

/// The row a listed object is shown as, at time `now`.
pub open spec fn instance_row_spec(s: ResourceSummary, now: int) -> CustomResourceInstanceRowView {
    let namespace = or_na(opt_view(s.namespace));
    CustomResourceInstanceRowView {
        key: slash_key(namespace, s.name@),
        name: s.name@,
        namespace,
        kind: s.kind@,
        status: or_na(opt_view(s.status)),
        age: strict_age_spec(s.raw, now),
        raw: s.raw,
    }
}

/// The row a listed object is shown as, at time `now`.
pub fn custom_resource_instance_row_from_summary(summary: ResourceSummary, now: i64) -> (r: CustomResourceInstanceRow)
    ensures
        r@ == instance_row_spec(summary, now as int),
{
    let namespace = match &summary.namespace {
        Some(ns) => ns.clone(),
        None => na(),
    };
    let status = match &summary.status {
        Some(st) => st.clone(),
        None => na(),
    };
    let key = slash_join(namespace.as_str(), summary.name.as_str());
    let age = strict_age(&summary.raw, now);
    CustomResourceInstanceRow {
        key,
        name: summary.name,
        namespace,
        kind: summary.kind,
        status,
        age,
        raw: summary.raw,
    }
}

/// The rows of an object list, sorted by namespace and then name.
pub open spec fn instance_rows_spec(items: Seq<ResourceSummary>, now: int) -> Seq<CustomResourceInstanceRowView> {
    sort_views::<CustomResourceInstanceRow>(items.map_values(|s: ResourceSummary| instance_row_spec(s, now)))
}

/// The rows of an object list, sorted by namespace and then name.
pub fn custom_resource_instance_rows_from_items(items: Vec<ResourceSummary>, now: i64) -> (r: Vec<CustomResourceInstanceRow>)
    ensures
        views(r@) == instance_rows_spec(items@, now as int),
{
    let ghost all = items@.map_values(|s: ResourceSummary| instance_row_spec(s, now as int));
    let mut src = items;
    let mut rows: Vec<CustomResourceInstanceRow> = Vec::new();
    let mut k: usize = 0;
    assert(all.len() == src.len());
    assert forall|j: int| 0 <= j < src@.len() implies instance_row_spec(#[trigger] src@[j], now as int) == all[0 + j] by {}
    while src.len() > 0
        invariant
            k <= all.len(),
            all.len() <= usize::MAX,
            src@.len() == all.len() - k,
            forall|j: int| 0 <= j < src@.len() ==> instance_row_spec(#[trigger] src@[j], now as int) == all[k + j],
            views(rows@) == all.take(k as int),
        decreases src@.len(),
    {
        let ghost before = src@;
        let item = src.remove(0);
        assert(instance_row_spec(item, now as int) == all[k as int]);
        assert forall|j: int| 0 <= j < src@.len() implies instance_row_spec(#[trigger] src@[j], now as int) == all[k + 1 + j] by {
            assert(src@[j] == before[j + 1]);
        }
        let row = custom_resource_instance_row_from_summary(item, now);
        let ghost rows_before = rows@;
        rows.push(row);
        assert(views(rows@) =~= views(rows_before).push(row@));
        assert(views(rows@) =~= all.take(k + 1));
        k = k + 1;
    }
    assert(all.take(k as int) =~= all);
    sort_rows(rows)
}

/// The expanded definition: its key and title, the resource its objects
/// are listed from (none when the definition lacks one), whether they live
/// in namespaces, and the objects table.  The table's row request is the
/// dialog's list request; its row status the dialog's status.
pub struct CustomResourceExpandDialog {
    pub crd_key: String,
    pub title: String,
    pub resource: Option<ResourceRef>,
    pub namespaced: bool,
    pub table: PanelState<CustomResourceInstanceRow>,
}

impl CustomResourceExpandDialog {
    /// What the objects table shows; none without a resource.
    pub fn resource_metadata(&self) -> (r: Option<ResourceMetadata>)
        ensures
            self.resource is None ==> r is None,
            r matches Some(m) ==> opt_view(m.resource.group) == opt_view(self.resource->0.group)
                && m.resource.version@ == self.resource->0.version@
                && m.resource.plural@ == self.resource->0.plural@
                && m.resource.namespaced == self.resource->0.namespaced
                && m.id@ == "custom_resource_instance_"@ + self.crd_key@
                && m.title@ == self.title@
                && m.api_version@ == api_version_spec(self.resource->0)
                && m.kind@ == kind_from_title_spec(self.title@)
                && m.namespaced == self.namespaced,
            self.resource is Some ==> r is Some,
    {
        match &self.resource {
            None => None,
            Some(res) => {
                let resource = ResourceRef {
                    group: copy_opt_text(&res.group),
                    version: res.version.clone(),
                    plural: res.plural.clone(),
                    namespaced: res.namespaced,
                };
                let mut id = "custom_resource_instance_".to_owned();
                push_str(&mut id, self.crd_key.as_str());
                Some(ResourceMetadata {
                    id,
                    title: self.title.clone(),
                    api_version: custom_resource_api_version(res),
                    kind: custom_resource_kind_from_title(self.title.as_str()),
                    namespaced: self.namespaced,
                    resource,
                })
            },
        }
    }
}

// ---------------------------------------------------------------------------
// The panel
// ---------------------------------------------------------------------------

/// The custom resources panel: the definitions table's state, the expanded
/// definition, and the manifest view.
pub struct CustomResourcesPanel {
    pub crds: PanelState<CustomResourceRow>,
    pub expand_dialog: Option<CustomResourceExpandDialog>,
    pub view_dialog: Option<ManifestViewDialog>,
}

/// The names of the deleted definitions of a batch.
pub open spec fn target_names(targets: Seq<ResourceDeleteTarget>) -> Seq<Seq<char>> {
    targets.map_values(|t: ResourceDeleteTarget| t.name@)
}

/// The keys of the deleted objects of a batch.
pub open spec fn target_instance_keys(targets: Seq<ResourceDeleteTarget>) -> Seq<Seq<char>> {
    targets.map_values(|t: ResourceDeleteTarget| instance_key_spec(opt_view(t.namespace), t.name@))
}

/// What the result of a definition action does when it answers the
/// definitions table's current action: an apply closes the create dialog;
/// deletes drop the definitions' rows by name; a failure records the error.
pub open spec fn crd_action_post(
    old: PanelState<CustomResourceRow>,
    new: PanelState<CustomResourceRow>,
    kind: ResourceActionKind,
    result: Result<ResourceActionOutcome, String>,
) -> bool {
    &&& new.action_request_id is None
    &&& new.next_request_id == old.next_request_id
    &&& new.row_request_id == old.row_request_id
    &&& new.same_view(&old)
    &&& new.row_status == old.row_status
    &&& new.edit_dialog == old.edit_dialog
    &&& new.delete_dialog == old.delete_dialog
    &&& match result {
        Ok(ResourceActionOutcome::Applied(_)) => {
            &&& new.rows == old.rows
            &&& new.selected_rows == old.selected_rows
            &&& new.create_dialog is None
            &&& new.action_error is None
            &&& new.batch_delete_dialog == old.batch_delete_dialog
        },
        Ok(ResourceActionOutcome::Deleted) => {
            &&& match kind {
                ResourceActionKind::DeleteResource { name, .. } => {
                    &&& views(new.rows@) == crate::resource_panel::table::without_key::<CustomResourceRow>(views(old.rows@), name@)
                    &&& new.selected_rows@ == old.selected_rows@.remove(name@)
                },
                _ => new.rows == old.rows && new.selected_rows == old.selected_rows,
            }
            &&& new.action_error is None
            &&& new.create_dialog == old.create_dialog
            &&& new.batch_delete_dialog == old.batch_delete_dialog
        },
        Ok(ResourceActionOutcome::BatchDeleted(targets)) => {
            &&& views(new.rows@) == crate::resource_panel::state::without_keys::<CustomResourceRow>(views(old.rows@), target_names(targets@))
            &&& new.selected_rows@ == old.selected_rows@.difference(target_names(targets@).to_set())
            &&& new.batch_delete_dialog is None
            &&& new.action_error is None
            &&& new.create_dialog == old.create_dialog
        },
        Err(e) => {
            &&& new.rows == old.rows
            &&& new.selected_rows == old.selected_rows
            &&& new.action_error == Some(e)
            &&& new.create_dialog == old.create_dialog
            &&& new.batch_delete_dialog == old.batch_delete_dialog
        },
        _ => {
            &&& new.rows == old.rows
            &&& new.selected_rows == old.selected_rows
            &&& new.create_dialog == old.create_dialog
            &&& new.batch_delete_dialog == old.batch_delete_dialog
            &&& new.action_error == old.action_error
        },
    }
}

/// What an object action's result means for the expanded definition's
/// objects table at time `now`.
pub open spec fn instance_action_effect(
    kind: ResourceActionKind,
    result: Result<ResourceActionOutcome, String>,
    now: int,
) -> ActionEffect<CustomResourceInstanceRowView> {
    match result {
        Ok(ResourceActionOutcome::Applied(summary)) => ActionEffect::Applied(instance_row_spec(summary, now)),
        Ok(ResourceActionOutcome::Deleted) => ActionEffect::Deleted(match kind {
            ResourceActionKind::DeleteResource { namespace, name, .. } => Some(instance_key_spec(opt_view(namespace), name@)),
            _ => None,
        }),
        Ok(ResourceActionOutcome::BatchDeleted(targets)) => ActionEffect::BatchDeleted(target_instance_keys(targets@)),
        Ok(ResourceActionOutcome::Patched(_)) => ActionEffect::Unchanged,
        Ok(ResourceActionOutcome::Evicted) => ActionEffect::Unchanged,
        Err(e) => ActionEffect::Failed(e),
    }
}

/// The expanded definition's parts other than its table agree.
pub open spec fn same_dialog_frame(a: CustomResourceExpandDialog, b: CustomResourceExpandDialog) -> bool {
    &&& a.crd_key == b.crd_key
    &&& a.title == b.title
    &&& a.resource == b.resource
    &&& a.namespaced == b.namespaced
}

/// What an answer does to the custom resources panel at time `now`:
/// definition lists go through the definitions table's request check,
/// object lists through the expanded definition's; an action result
/// answers the definitions table's current action if it is that one, else
/// the expanded definition's; anything else changes nothing.
pub open spec fn custom_event_post(old: CustomResourcesPanel, new: CustomResourcesPanel, event: ResourceUiEvent, now: int) -> bool {
    &&& new.view_dialog == old.view_dialog
    &&& match event {
        ResourceUiEvent::ResourcesLoaded { request, result } => match request.kind {
            ResourceLoadKind::CustomResourceDefinitions => {
                &&& PanelState::<CustomResourceRow>::rows_load_post(old.crds, new.crds, request.request_id, match result {
                    Ok(list) => Ok(custom_resource_rows_spec(list.items@, now)),
                    Err(e) => Err(e),
                })
                &&& new.expand_dialog == old.expand_dialog
            },
            ResourceLoadKind::CustomResources { .. } => {
                &&& new.crds == old.crds
                &&& match old.expand_dialog {
                    None => new.expand_dialog is None,
                    Some(d) => new.expand_dialog matches Some(nd) && same_dialog_frame(d, nd)
                        && PanelState::<CustomResourceInstanceRow>::rows_load_post(d.table, nd.table, request.request_id, match result {
                            Ok(list) => Ok(instance_rows_spec(list.items@, now)),
                            Err(e) => Err(e),
                        }),
                }
            },
            _ => new == old,
        },
        ResourceUiEvent::ResourceActionCompleted { request, result } =>
            if old.crds.action_request_id == Some(request.request_id) {
                &&& crd_action_post(old.crds, new.crds, request.kind, result)
                &&& new.expand_dialog == old.expand_dialog
            } else {
                &&& new.crds == old.crds
                &&& match old.expand_dialog {
                    None => new.expand_dialog is None,
                    Some(d) => new.expand_dialog matches Some(nd) && same_dialog_frame(d, nd)
                        && PanelState::<CustomResourceInstanceRow>::action_post(d.table, nd.table, request.request_id,
                            instance_action_effect(request.kind, result, now)),
                }
            },
        _ => new == old,
    }
}

impl CustomResourcesPanel {
    /// The panel's invariant: both tables keep their selection within
    /// their rows.
    pub open spec fn wf(&self) -> bool {
        &&& self.crds.wf()
        &&& self.expand_dialog matches Some(d) ==> d.table.wf()
    }

    /// An empty panel.
    pub fn new() -> (r: CustomResourcesPanel)
        ensures
            r.wf(),
            r.crds.is_initial(),
            r.crds.next_request_id == 0,
            r.crds.last_cluster_id is None,
            r.expand_dialog is None,
            r.view_dialog is None,
    {
        CustomResourcesPanel { crds: PanelState::new(), expand_dialog: None, view_dialog: None }
    }

    fn apply_crd_action(&mut self, kind: ResourceActionKind, result: Result<ResourceActionOutcome, String>)
        requires
            old(self).crds.wf(),
        ensures
            final(self).crds.wf(),
            crd_action_post(old(self).crds, final(self).crds, kind, result),
            final(self).expand_dialog == old(self).expand_dialog,
            final(self).view_dialog == old(self).view_dialog,
    {
        self.crds.action_request_id = None;
        match result {
            Ok(ResourceActionOutcome::Applied(_)) => {
                self.crds.create_dialog = None;
                self.crds.action_error = None;
            },
            Ok(ResourceActionOutcome::Deleted) => {
                match kind {
                    ResourceActionKind::DeleteResource { name, .. } => self.crds.remove_key(name.as_str()),
                    _ => {},
                }
                self.crds.action_error = None;
            },
            Ok(ResourceActionOutcome::BatchDeleted(targets)) => {
                let names = target_name_texts(&targets);
                self.crds.remove_keys(&names);
                self.crds.batch_delete_dialog = None;
                self.crds.action_error = None;
            },
            Ok(ResourceActionOutcome::Patched(_)) => {},
            Ok(ResourceActionOutcome::Evicted) => {},
            Err(error) => self.crds.action_error = Some(error),
        }
    }

    /// Takes an answer; `now` (seconds since the Unix epoch) dates the ages
    /// of new rows.
    pub fn apply_event(&mut self, event: ResourceUiEvent, now: i64)
        requires
            old(self).wf(),
        ensures
            final(self).wf(),
            custom_event_post(*old(self), *final(self), event, now as int),
    {
        match event {
            ResourceUiEvent::ResourcesLoaded { request, result } => {
                let id = request.request_id;
                match request.kind {
                    ResourceLoadKind::CustomResourceDefinitions => {
                        let rows = match result {
                            Ok(list) => Ok(custom_resource_rows_from_items(&list.items, now)),
                            Err(e) => Err(e),
                        };
                        self.crds.apply_rows_load(id, rows);
                    },
                    ResourceLoadKind::CustomResources { .. } => {
                        match &mut self.expand_dialog {
                            Some(dialog) => {
                                let rows = match result {
                                    Ok(list) => Ok(custom_resource_instance_rows_from_items(list.items, now)),
                                    Err(e) => Err(e),
                                };
                                dialog.table.apply_rows_load(id, rows);
                            },
                            None => {},
                        }
                    },
                    _ => {},
                }
            },
            ResourceUiEvent::ResourceActionCompleted { request, result } => {
                let id = request.request_id;
                if self.crds.action_request_id == Some(id) {
                    self.apply_crd_action(request.kind, result);
                } else {
                    match &mut self.expand_dialog {
                        Some(dialog) => {
                            let outcome = instance_action_result(request.kind, result, now);
                            dialog.table.apply_action_result(id, outcome);
                        },
                        None => {},
                    }
                }
            },
            _ => {},
        }
    }

    /// Forgets the previous cluster's definitions and dialogs when shown for
    /// another cluster.
    pub fn reset_for_cluster_change(&mut self, cluster_id: &ClusterId)
        requires
            old(self).wf(),
        ensures
            final(self).wf(),
            crate::resource_panel::state::cluster_view(old(self).crds.last_cluster_id) == Some(cluster_id.id@)
                ==> *final(self) == *old(self),
            crate::resource_panel::state::cluster_view(old(self).crds.last_cluster_id) != Some(cluster_id.id@) ==> {
                &&& final(self).crds.is_initial()
                &&& crate::resource_panel::state::cluster_view(final(self).crds.last_cluster_id) == Some(cluster_id.id@)
                &&& final(self).crds.next_request_id == old(self).crds.next_request_id
                &&& final(self).expand_dialog is None
                &&& final(self).view_dialog is None
            },
    {
        let same = match &self.crds.last_cluster_id {
            Some(last) => last.same(cluster_id),
            None => false,
        };
        if same {
            return;
        }
        self.crds.reset_for_cluster_change(cluster_id);
        self.expand_dialog = None;
        self.view_dialog = None;
    }

    /// The definitions list request; it becomes the current one.
    pub fn request_crd_load(&mut self, cluster_id: ClusterId) -> (r: ResourceLoadRequest)
        requires
            old(self).wf(),
            old(self).crds.next_request_id < u64::MAX,
        ensures
            final(self).wf(),
            r.request_id == old(self).crds.next_request_id + 1,
            r.cluster_id == cluster_id,
            r.kind == ResourceLoadKind::CustomResourceDefinitions,
            final(self).crds.next_request_id == r.request_id,
            final(self).crds.row_request_id == Some(r.request_id),
            final(self).crds.row_status == crate::resource_panel::LoadStatus::Loading,
            final(self).crds.rows == old(self).crds.rows,
            final(self).expand_dialog == old(self).expand_dialog,
    {
        let id = self.crds.begin_row_load();
        ResourceLoadRequest { request_id: id, cluster_id, kind: ResourceLoadKind::CustomResourceDefinitions }
    }

    /// Opens the view dialog of the expanded definition's object with `key`
    /// on its manifest's YAML; nothing happens when no object has the key.
    pub fn open_instance_view_dialog(&mut self, key: &str, yaml: String)
        requires
            old(self).wf(),
        ensures
            final(self).wf(),
            final(self).crds == old(self).crds,
            final(self).expand_dialog == old(self).expand_dialog,
            match old(self).expand_dialog {
                Some(d) => match crate::resource_panel::table::key_index::<CustomResourceInstanceRow>(views(d.table.rows@), key@) {
                    Some(i) => final(self).view_dialog matches Some(v) && v.key@ == key@
                        && v.name@ == views(d.table.rows@)[i].name && v.yaml == yaml,
                    None => final(self).view_dialog == old(self).view_dialog,
                },
                None => final(self).view_dialog == old(self).view_dialog,
            },
    {
        match &self.expand_dialog {
            Some(d) => {
                proof {
                    crate::resource_panel::state::lemma_key_index::<CustomResourceInstanceRow>(views(d.table.rows@), key@);
                }
                match d.table.row_index(key) {
                    Some(i) => {
                        assert(views(d.table.rows@)[i as int] == d.table.rows@[i as int]@);
                        let name = d.table.rows[i].name.clone();
                        self.view_dialog = Some(ManifestViewDialog { key: key.to_owned(), name, yaml });
                    },
                    None => {},
                }
            },
            None => {},
        }
    }

    /// Expands the definition row named `key`: opens its objects dialog and,
    /// when the definition names a resource, asks for its objects (the
    /// request becomes the dialog's current one); otherwise the dialog shows
    /// an error.  Nothing happens when no row has the name.
    pub fn expand(&mut self, key: &str, cluster_id: ClusterId) -> (r: Option<ResourceLoadRequest>)
        requires
            old(self).wf(),
            old(self).crds.next_request_id < u64::MAX,
        ensures
            final(self).wf(),
            crate::resource_panel::table::key_index::<CustomResourceRow>(views(old(self).crds.rows@), key@) is None
                ==> *final(self) == *old(self) && r is None,
            crate::resource_panel::table::key_index::<CustomResourceRow>(views(old(self).crds.rows@), key@) matches Some(i) ==> {
                let row = views(old(self).crds.rows@)[i];
                &&& final(self).expand_dialog matches Some(d)
                &&& expanded(final(self).expand_dialog->0, row, r, cluster_id, old(self).crds.next_request_id)
                &&& final(self).crds.rows == old(self).crds.rows
                &&& final(self).crds.selected_rows == old(self).crds.selected_rows
            },
    {
        proof {
            crate::resource_panel::state::lemma_key_index::<CustomResourceRow>(views(self.crds.rows@), key@);
        }
        let index = match self.crds.row_index(key) {
            Some(i) => i,
            None => return None,
        };
        assert(views(self.crds.rows@)[index as int] == self.crds.rows@[index as int]@);
        let row = &self.crds.rows[index];
        let resource = row.resource_ref();
        let mut title = row.kind.clone();
        push_str(&mut title, " (");
        push_str(&mut title, row.name.as_str());
        push_str(&mut title, ")");
        let namespaced = str_eq(row.scope.as_str(), "Namespaced");
        let crd_key = row.name.clone();
        let mut table: PanelState<CustomResourceInstanceRow> = PanelState::new();
        let request = match resource {
            Some(res) => {
                let id = self.crds.allocate_request_id();
                table.row_request_id = Some(id);
                table.row_status = crate::resource_panel::LoadStatus::Loading;
                let copy = ResourceRef {
                    group: copy_opt_text(&res.group),
                    version: res.version.clone(),
                    plural: res.plural.clone(),
                    namespaced: res.namespaced,
                };
                self.expand_dialog = Some(CustomResourceExpandDialog { crd_key, title, resource: Some(res), namespaced, table });
                Some(ResourceLoadRequest { request_id: id, cluster_id, kind: ResourceLoadKind::CustomResources { resource: copy } })
            },
            None => {
                table.row_status = crate::resource_panel::LoadStatus::Error(
                    "custom resource definition is missing group, plural, or served version".to_owned(),
                );
                self.expand_dialog = Some(CustomResourceExpandDialog { crd_key, title, resource: None, namespaced, table });
                None
            },
        };
        request
    }
}

/// The dialog a definition row expands into, and the request it sends.
pub open spec fn expanded(
    d: CustomResourceExpandDialog,
    row: CustomResourceRowView,
    r: Option<ResourceLoadRequest>,
    cluster_id: ClusterId,
    next_request_id: u64,
) -> bool {
    &&& d.crd_key@ == row.name
    &&& d.title@ == row.kind + " ("@ + row.name + ")"@
    &&& d.namespaced == (row.scope == "Namespaced"@)
    &&& d.table.rows@.len() == 0
    &&& (row_resource_ok(row) <==> d.resource is Some)
    &&& (d.resource matches Some(res) ==> {
        &&& opt_view(res.group) == Some(row.group)
        &&& Some(res.version@) == row.storage_version
        &&& res.plural@ == row.plural
        &&& res.namespaced == (row.scope == "Namespaced"@)
    })
    &&& if row_resource_ok(row) {
        match r {
            Some(req) => {
                &&& req.cluster_id == cluster_id
                &&& req.request_id == next_request_id + 1
                &&& d.table.row_request_id == Some(req.request_id)
                &&& d.table.row_status == crate::resource_panel::LoadStatus::Loading
                &&& match req.kind {
                    ResourceLoadKind::CustomResources { resource } =>
                        d.resource matches Some(own) && crate::resource_panel::same_resource_spec(own, resource),
                    _ => false,
                }
            },
            None => false,
        }
    } else {
        &&& r is None
        &&& d.table.row_request_id is None
        &&& d.table.row_status is Error
    }
}

/// The names of a batch's targets.
pub fn target_name_texts(targets: &Vec<ResourceDeleteTarget>) -> (r: Vec<String>)
    ensures
        texts_view(r@) == target_names(targets@),
{
    let mut out: Vec<String> = Vec::new();
    let mut i: usize = 0;
    while i < targets.len()
        invariant
            i <= targets@.len(),
            texts_view(out@) == target_names(targets@).take(i as int),
        decreases targets@.len() - i,
    {
        let name = targets[i].name.clone();
        let ghost before = out@;
        out.push(name);
        assert(texts_view(out@) =~= texts_view(before).push(name@));
        assert(texts_view(out@) =~= target_names(targets@).take(i + 1));
        i = i + 1;
    }
    assert(target_names(targets@).take(i as int) =~= target_names(targets@));
    out
}

/// The keys of a batch's objects.
pub fn target_instance_key_texts(targets: &Vec<ResourceDeleteTarget>) -> (r: Vec<String>)
    ensures
        texts_view(r@) == target_instance_keys(targets@),
{
    let mut out: Vec<String> = Vec::new();
    let mut i: usize = 0;
    while i < targets.len()
        invariant
            i <= targets@.len(),
            texts_view(out@) == target_instance_keys(targets@).take(i as int),
        decreases targets@.len() - i,
    {
        let t = &targets[i];
        let ns = match &t.namespace {
            Some(n) => Some(n.as_str()),
            None => None,
        };
        let key = custom_resource_instance_key(ns, t.name.as_str());
        let ghost before = out@;
        out.push(key);
        assert(texts_view(out@) =~= texts_view(before).push(key@));
        assert(texts_view(out@) =~= target_instance_keys(targets@).take(i + 1));
        i = i + 1;
    }
    assert(target_instance_keys(targets@).take(i as int) =~= target_instance_keys(targets@));
    out
}

/// The object action result as the objects table takes it.
pub fn instance_action_result(kind: ResourceActionKind, result: Result<ResourceActionOutcome, String>, now: i64) -> (r: ActionResult<CustomResourceInstanceRow>)
    ensures
        crate::resource_panel::state::action_effect::<CustomResourceInstanceRow>(r) == instance_action_effect(kind, result, now as int),
{
    match result {
        Ok(ResourceActionOutcome::Applied(summary)) => ActionResult::Applied(custom_resource_instance_row_from_summary(summary, now)),
        Ok(ResourceActionOutcome::Deleted) => match kind {
            ResourceActionKind::DeleteResource { namespace, name, .. } => {
                let ns = match &namespace {
                    Some(n) => Some(n.as_str()),
                    None => None,
                };
                ActionResult::Deleted(Some(custom_resource_instance_key(ns, name.as_str())))
            },
            _ => ActionResult::Deleted(None),
        },
        Ok(ResourceActionOutcome::BatchDeleted(targets)) => ActionResult::BatchDeleted(target_instance_key_texts(&targets)),
        Ok(ResourceActionOutcome::Patched(_)) => ActionResult::Unchanged,
        Ok(ResourceActionOutcome::Evicted) => ActionResult::Unchanged,
        Err(e) => ActionResult::Failed(e),
    }
}

/// Every custom object list is shown in table order, and shows each listed object
/// exactly once.
pub proof fn law_instance_rows_in_table_order(items: Seq<ResourceSummary>, now: int)
    ensures
        crate::resource_panel::table::in_table_order::<CustomResourceInstanceRow>(instance_rows_spec(items, now)),
        instance_rows_spec(items, now).to_multiset() == items.map_values(|s: ResourceSummary| instance_row_spec(s, now)).to_multiset(),
{
    let all = items.map_values(|s: ResourceSummary| instance_row_spec(s, now));
    let p = |v: CustomResourceInstanceRowView| true;
    assert forall|a: CustomResourceInstanceRowView| p(a) implies !CustomResourceInstanceRow::ordered_before(a, a) by {
        crate::resource_panel::job::lemma_namespace_name_irreflexive(a.namespace, a.name);
    }
    assert forall|a: CustomResourceInstanceRowView, b: CustomResourceInstanceRowView, c: CustomResourceInstanceRowView|
        p(a) && p(b) && p(c) && #[trigger] CustomResourceInstanceRow::ordered_before(a, b) && #[trigger] CustomResourceInstanceRow::ordered_before(b, c)
        implies CustomResourceInstanceRow::ordered_before(a, c) by {
        crate::resource_panel::job::lemma_namespace_name_transitive(a.namespace, a.name, b.namespace, b.name, c.namespace, c.name);
    }
    assert forall|i: int| 0 <= i < all.len() implies p(#[trigger] all[i]) by {}
    crate::resource_panel::table::lemma_sort_views_in_order::<CustomResourceInstanceRow>(all, p);
    crate::resource_panel::state::lemma_sort_views_permutes::<CustomResourceInstanceRow>(all);
}

/// Every definition list is shown in table order, and shows each listed object
/// exactly once.
pub proof fn law_custom_resource_rows_in_table_order(items: Seq<ResourceSummary>, now: int)
    ensures
        crate::resource_panel::table::in_table_order::<CustomResourceRow>(custom_resource_rows_spec(items, now)),
        custom_resource_rows_spec(items, now).to_multiset() == items.map_values(|s: ResourceSummary| custom_resource_row_spec(s, now)).to_multiset(),
{
    let all = items.map_values(|s: ResourceSummary| custom_resource_row_spec(s, now));
    let p = |v: CustomResourceRowView| true;
    assert forall|a: CustomResourceRowView| p(a) implies !CustomResourceRow::ordered_before(a, a) by {
        crate::resource_panel::table::lemma_text_lt_irreflexive(a.name);
    }
    assert forall|a: CustomResourceRowView, b: CustomResourceRowView, c: CustomResourceRowView|
        p(a) && p(b) && p(c) && #[trigger] CustomResourceRow::ordered_before(a, b) && #[trigger] CustomResourceRow::ordered_before(b, c)
        implies CustomResourceRow::ordered_before(a, c) by {
        crate::resource_panel::table::lemma_text_lt_transitive(a.name, b.name, c.name);
    }
    assert forall|i: int| 0 <= i < all.len() implies p(#[trigger] all[i]) by {}
    crate::resource_panel::table::lemma_sort_views_in_order::<CustomResourceRow>(all, p);
    crate::resource_panel::state::lemma_sort_views_permutes::<CustomResourceRow>(all);
}
/// A search finds a row by any of its name, group, kind and plural: when the search text,
/// trimmed and lower-cased, occurs in one of them lower-cased, the row
/// matches; and a row matches a non-blank search only that way.
pub proof fn law_custom_resource_search_looks_at_every_column(v: CustomResourceRowView, search: Seq<char>)
    ensures
        ({
            let needle = crate::text::lowercase(crate::text::trim_seq(search));
            &&& crate::text::has_infix(crate::text::lowercase(v.name), needle) ==> CustomResourceRow::matches_needle(v, needle)
            &&& crate::text::has_infix(crate::text::lowercase(v.group), needle) ==> CustomResourceRow::matches_needle(v, needle)
            &&& crate::text::has_infix(crate::text::lowercase(v.kind), needle) ==> CustomResourceRow::matches_needle(v, needle)
            &&& crate::text::has_infix(crate::text::lowercase(v.plural), needle) ==> CustomResourceRow::matches_needle(v, needle)
            &&& CustomResourceRow::matches_needle(v, needle) && needle.len() > 0 ==> {
                ||| crate::text::has_infix(crate::text::lowercase(v.name), needle)
                ||| crate::text::has_infix(crate::text::lowercase(v.group), needle)
                ||| crate::text::has_infix(crate::text::lowercase(v.kind), needle)
                ||| crate::text::has_infix(crate::text::lowercase(v.plural), needle)
            }
        }),
{
}
/// A definition's row reads `spec.group`, `spec.names.kind`,
/// `spec.names.plural` and `spec.scope` (`N/A` when missing) and keeps the
/// listed name; an object's row shows the listed namespace and status
/// (`N/A` when missing) and is keyed `namespace/name`.
pub proof fn law_custom_resource_rows_read_manifest(s: ResourceSummary, now: int)
    ensures
        ({
            let text = |o: Option<JsonValue>| match json_as_str(o) {
                Some(t) => t,
                None => "N/A"@,
            };
            let at2 = |a: Seq<char>, b: Seq<char>| crate::resource_panel::components::at2(Some(s.raw), a, b);
            let at3 = |a: Seq<char>, b: Seq<char>, c: Seq<char>| crate::resource_panel::components::at3(Some(s.raw), a, b, c);
            let d = custom_resource_row_spec(s, now);
            let i = instance_row_spec(s, now);
            let ns = match s.namespace {
                Some(n) => n@,
                None => "N/A"@,
            };
            &&& d.name == s.name@
            &&& d.group == text(at2("spec"@, "group"@))
            &&& d.kind == text(at3("spec"@, "names"@, "kind"@))
            &&& d.plural == text(at3("spec"@, "names"@, "plural"@))
            &&& d.scope == text(at2("spec"@, "scope"@))
            &&& i.name == s.name@
            &&& i.namespace == ns
            &&& i.key == ns + "/"@ + s.name@
            &&& i.kind == s.kind@
            &&& i.status == match s.status {
                Some(t) => t@,
                None => "N/A"@,
            }
        }),
{
    reveal_strlit("N/A");
    reveal_strlit("/");
}
} // verus!
