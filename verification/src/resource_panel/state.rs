//! The state every resource panel keeps, and how answers change it: which
//! request is current, the rows and the selection, the action dialogs.
use vstd::prelude::*;
use crate::resource_panel::{
    ClusterId, LoadStatus, ResourceDeleteTarget, ResourceEvent, ResourceList, namespace_names,
    namespaces_from_list, opt_view, texts_view,
};
use crate::resource_panel::components::{
    GenericBatchDeleteDialog, GenericCreateDialog, GenericDeleteDialog, GenericEditDialog,
    ResourceRowTarget, needle_of, search_needle, selected_delete_targets, selected_targets_spec, target_keys, targets_view, visible_keys,
    delete_targets_view,
};
use crate::resource_panel::table::{
    KeySet, TableRow, key_index, remove_rows_with_key, sort_views, upsert_row, upsert_views, views,
    without_key, insert_pos, insert_sorted, in_table_order, lemma_sort_views_in_order, strict_order_on,
};
use crate::text::{str_eq, to_lowercase, trim_str};

verus! {

/// A row of a panel: besides its key and order, the object it shows and the
/// search it matches.
pub trait PanelRow: TableRow {
    /// The namespace of the shown object (none for cluster scoped ones).
    spec fn namespace_of(v: Self::V) -> Option<Seq<char>>;

    /// The name of the shown object.
    spec fn name_of(v: Self::V) -> Seq<char>;

    /// Whether the row matches a lower-cased search text.
    spec fn matches_needle(v: Self::V, needle: Seq<char>) -> bool;

    /// An empty search text matches every row.
    proof fn lemma_empty_needle_matches(v: Self::V)
        ensures
            Self::matches_needle(v, Seq::empty()),
    ;

    /// The row's target: its key, namespace and name.
    fn target(&self) -> (r: ResourceRowTarget)
        ensures
            r.key@ == Self::key_of(self@),
            opt_view(r.namespace) == Self::namespace_of(self@),
            r.name@ == Self::name_of(self@),
    ;

    /// Whether the row matches a lower-cased search text.
    fn matches(&self, needle: &str) -> (r: bool)
        ensures
            r == Self::matches_needle(self@, needle@),
    ;
}

/// The keys of a sequence of rows.
pub open spec fn row_keys<R: TableRow>(s: Seq<R::V>) -> Set<Seq<char>> {
    s.map_values(|v: R::V| R::key_of(v)).to_set()
}

/// The rows with none of the given keys, removing one key after another.
pub open spec fn without_keys<R: TableRow>(s: Seq<R::V>, keys: Seq<Seq<char>>) -> Seq<R::V>
    decreases keys.len(),
{
    if keys.len() == 0 {
        s
    } else {
        without_keys::<R>(without_key::<R>(s, keys[0]), keys.drop_first())
    }
}

/// What became of an action that this panel sent.
pub enum ActionResult<R> {
    /// The object was created or replaced; the row shows it now.
    Applied(R),
    /// The object was deleted; the key of its row, when it is this panel's.
    Deleted(Option<String>),
    /// Several objects were deleted; the keys of their rows.
    BatchDeleted(Vec<String>),
    /// The action changed nothing this panel shows.
    Unchanged,
    /// The action failed with this message.
    Failed(String),
}

/// What an action's result means for a panel's rows, over row views.
pub ghost enum ActionEffect<V> {
    Applied(V),
    Deleted(Option<Seq<char>>),
    BatchDeleted(Seq<Seq<char>>),
    Unchanged,
    Failed(String),
}

/// The part of a panel that every resource panel shares.
pub struct PanelState<R> {
    pub namespace_filter: Option<String>,
    pub search_text: String,
    pub namespaces: Vec<String>,
    pub namespace_status: LoadStatus,
    pub row_status: LoadStatus,
    pub rows: Vec<R>,
    pub selected_rows: KeySet,
    pub next_request_id: u64,
    pub namespace_request_id: Option<u64>,
    pub row_request_id: Option<u64>,
    pub namespace_watch_request_id: Option<u64>,
    pub row_watch_request_id: Option<u64>,
    pub last_cluster_id: Option<ClusterId>,
    pub edit_dialog: Option<GenericEditDialog>,
    pub create_dialog: Option<GenericCreateDialog>,
    pub batch_delete_dialog: Option<GenericBatchDeleteDialog>,
    pub delete_dialog: Option<GenericDeleteDialog>,
    pub action_request_id: Option<u64>,
    pub action_error: Option<String>,
}

impl<R: PanelRow> PanelState<R> {
    /// The selection is a set of keys, and every selected key belongs to a
    /// row.
    pub open spec fn wf(&self) -> bool {
        &&& self.selected_rows.wf()
        &&& self.selected_rows@.subset_of(row_keys::<R>(views(self.rows@)))
    }

    /// The request bookkeeping of two states agrees.
    pub open spec fn same_requests(&self, other: &Self) -> bool {
        &&& self.next_request_id == other.next_request_id
        &&& self.namespace_request_id == other.namespace_request_id
        &&& self.row_request_id == other.row_request_id
        &&& self.namespace_watch_request_id == other.namespace_watch_request_id
        &&& self.row_watch_request_id == other.row_watch_request_id
        &&& self.action_request_id == other.action_request_id
    }

    /// The dialogs and the action error of two states agree.
    pub open spec fn same_dialogs(&self, other: &Self) -> bool {
        &&& self.edit_dialog == other.edit_dialog
        &&& self.create_dialog == other.create_dialog
        &&& self.batch_delete_dialog == other.batch_delete_dialog
        &&& self.delete_dialog == other.delete_dialog
        &&& self.action_error == other.action_error
    }

    /// The namespace list of two states agrees.
    pub open spec fn same_namespaces(&self, other: &Self) -> bool {
        &&& self.namespaces == other.namespaces
        &&& self.namespace_status == other.namespace_status
    }

    /// The rows and selection of two states agree.
    pub open spec fn same_rows(&self, other: &Self) -> bool {
        &&& self.rows == other.rows
        &&& self.row_status == other.row_status
        &&& self.selected_rows == other.selected_rows
    }

    /// The filters and the cluster of two states agree.
    pub open spec fn same_view(&self, other: &Self) -> bool {
        &&& self.namespace_filter == other.namespace_filter
        &&& self.search_text == other.search_text
        &&& self.last_cluster_id == other.last_cluster_id
    }

    /// A panel that has shown nothing yet.
    pub open spec fn is_initial(&self) -> bool {
        &&& self.namespace_filter is None
        &&& self.search_text@.len() == 0
        &&& self.namespaces@.len() == 0
        &&& self.namespace_status == LoadStatus::Idle
        &&& self.row_status == LoadStatus::Idle
        &&& self.rows@.len() == 0
        &&& self.selected_rows@ == Set::<Seq<char>>::empty()
        &&& self.namespace_request_id is None
        &&& self.row_request_id is None
        &&& self.namespace_watch_request_id is None
        &&& self.row_watch_request_id is None
        &&& self.edit_dialog is None
        &&& self.create_dialog is None
        &&& self.batch_delete_dialog is None
        &&& self.delete_dialog is None
        &&& self.action_request_id is None
        &&& self.action_error is None
    }

    /// An empty panel.
    pub fn new() -> (r: Self)
        ensures
            r.wf(),
            r.is_initial(),
            r.next_request_id == 0,
            r.last_cluster_id is None,
    {
        let r = PanelState {
            namespace_filter: None,
            search_text: String::new(),
            namespaces: Vec::new(),
            namespace_status: LoadStatus::Idle,
            row_status: LoadStatus::Idle,
            rows: Vec::new(),
            selected_rows: KeySet::new(),
            next_request_id: 0,
            namespace_request_id: None,
            row_request_id: None,
            namespace_watch_request_id: None,
            row_watch_request_id: None,
            last_cluster_id: None,
            edit_dialog: None,
            create_dialog: None,
            batch_delete_dialog: None,
            delete_dialog: None,
            action_request_id: None,
            action_error: None,
        };
        assert(r.selected_rows@.subset_of(row_keys::<R>(views(r.rows@))));
        r
    }

    /// Replaces the rows and forgets the selected keys that no new row has.
    pub fn replace_rows(&mut self, rows: Vec<R>)
        requires
            old(self).wf(),
        ensures
            final(self).wf(),
            final(self).rows == rows,
            final(self).selected_rows@ == old(self).selected_rows@.intersect(row_keys::<R>(views(rows@))),
            final(self).row_status == old(self).row_status,
            final(self).same_requests(old(self)),
            final(self).same_dialogs(old(self)),
            final(self).same_namespaces(old(self)),
            final(self).same_view(old(self)),
    {
        let targets = targets_of(&rows);
        let keys = visible_keys(targets.as_slice());
        self.selected_rows.retain_in(&keys);
        self.rows = rows;
        proof {
            lemma_target_keys::<R>(targets@, rows@);
        }
    }

    /// Replaces the row with the new row's key, or adds it, and keeps the
    /// rows in table order.
    pub fn upsert_row(&mut self, row: R)
        requires
            old(self).wf(),
        ensures
            final(self).wf(),
            views(final(self).rows@) == upsert_views::<R>(views(old(self).rows@), row@),
            final(self).selected_rows == old(self).selected_rows,
            final(self).row_status == old(self).row_status,
            final(self).same_requests(old(self)),
            final(self).same_dialogs(old(self)),
            final(self).same_namespaces(old(self)),
            final(self).same_view(old(self)),
    {
        let ghost before = views(self.rows@);
        upsert_row(&mut self.rows, row);
        proof {
            lemma_upsert_keeps_keys::<R>(before, row@);
        }
    }

    /// Drops the rows with `key`, and `key` from the selection.
    pub fn remove_key(&mut self, key: &str)
        requires
            old(self).wf(),
        ensures
            final(self).wf(),
            views(final(self).rows@) == without_key::<R>(views(old(self).rows@), key@),
            final(self).selected_rows@ == old(self).selected_rows@.remove(key@),
            final(self).row_status == old(self).row_status,
            final(self).same_requests(old(self)),
            final(self).same_dialogs(old(self)),
            final(self).same_namespaces(old(self)),
            final(self).same_view(old(self)),
    {
        let ghost before = views(self.rows@);
        remove_rows_with_key(&mut self.rows, key);
        self.selected_rows.remove(key);
        proof {
            lemma_without_key_keys::<R>(before, key@);
        }
    }
}

/// The targets (key, namespace, name) of a sequence of rows.
pub open spec fn row_targets<R: PanelRow>(s: Seq<R::V>) -> Seq<(Seq<char>, Option<Seq<char>>, Seq<char>)> {
    s.map_values(|v: R::V| (R::key_of(v), R::namespace_of(v), R::name_of(v)))
}

/// The view of a namespace list answer.
pub open spec fn names_result(r: Result<Vec<String>, String>) -> Result<Seq<Seq<char>>, String> {
    match r {
        Ok(v) => Ok(texts_view(v@)),
        Err(e) => Err(e),
    }
}

/// The view of a namespace watch answer.
pub open spec fn names_watch_result(r: Result<Option<Vec<String>>, String>) -> Result<Option<Seq<Seq<char>>>, String> {
    match r {
        Ok(Some(v)) => Ok(Some(texts_view(v@))),
        Ok(None) => Ok(None),
        Err(e) => Err(e),
    }
}

/// The view of a row list answer.
pub open spec fn rows_result<R: View>(r: Result<Vec<R>, String>) -> Result<Seq<R::V>, String> {
    match r {
        Ok(v) => Ok(views(v@)),
        Err(e) => Err(e),
    }
}

/// The view of a row watch answer.
pub open spec fn rows_watch_result<R: View>(r: Result<Option<Vec<R>>, String>) -> Result<Option<Seq<R::V>>, String> {
    match r {
        Ok(Some(v)) => Ok(Some(views(v@))),
        Ok(None) => Ok(None),
        Err(e) => Err(e),
    }
}

/// The view of an action result.
pub open spec fn action_effect<R: View>(o: ActionResult<R>) -> ActionEffect<R::V> {
    match o {
        ActionResult::Applied(row) => ActionEffect::Applied(row@),
        ActionResult::Deleted(key) => ActionEffect::Deleted(opt_view(key)),
        ActionResult::BatchDeleted(keys) => ActionEffect::BatchDeleted(texts_view(keys@)),
        ActionResult::Unchanged => ActionEffect::Unchanged,
        ActionResult::Failed(e) => ActionEffect::Failed(e),
    }
}

/// A request slot after the answer to `id` came: emptied when it held `id`.
pub open spec fn clear_if(slot: Option<u64>, id: u64) -> Option<u64> {
    if slot == Some(id) {
        None
    } else {
        slot
    }
}

/// The id of an optional cluster.
pub open spec fn cluster_view(c: Option<ClusterId>) -> Option<Seq<char>> {
    match c {
        Some(id) => Some(id.id@),
        None => None,
    }
}

impl<R: PanelRow> PanelState<R> {
    /// The request ids other than the namespace list's agree.
    pub open spec fn same_requests_but_namespace_load(&self, other: &Self) -> bool {
        &&& self.next_request_id == other.next_request_id
        &&& self.row_request_id == other.row_request_id
        &&& self.namespace_watch_request_id == other.namespace_watch_request_id
        &&& self.row_watch_request_id == other.row_watch_request_id
        &&& self.action_request_id == other.action_request_id
    }

    /// The request ids other than the namespace watch's agree.
    pub open spec fn same_requests_but_namespace_watch(&self, other: &Self) -> bool {
        &&& self.next_request_id == other.next_request_id
        &&& self.namespace_request_id == other.namespace_request_id
        &&& self.row_request_id == other.row_request_id
        &&& self.row_watch_request_id == other.row_watch_request_id
        &&& self.action_request_id == other.action_request_id
    }

    /// What a namespace list answer does: it empties the request slot when
    /// the answer is to the current request, and, whichever panel asked,
    /// sets the namespaces or records the error.
    pub open spec fn namespace_load_post(old: Self, new: Self, request_id: u64, result: Result<Seq<Seq<char>>, String>) -> bool {
        &&& new.namespace_request_id == clear_if(old.namespace_request_id, request_id)
        &&& match result {
            Ok(names) => texts_view(new.namespaces@) == names && new.namespace_status == LoadStatus::Loaded,
            Err(e) => new.namespaces == old.namespaces && new.namespace_status == LoadStatus::Error(e),
        }
        &&& new.same_requests_but_namespace_load(&old)
        &&& new.same_rows(&old)
        &&& new.same_dialogs(&old)
        &&& new.same_view(&old)
    }

    /// What a namespace watch answer does: like a list answer for a
    /// snapshot (`Ok(Some(..))`); nothing shown changes for another change
    /// (`Ok(None)`).
    pub open spec fn namespace_watch_post(old: Self, new: Self, request_id: u64, result: Result<Option<Seq<Seq<char>>>, String>) -> bool {
        &&& new.namespace_watch_request_id == clear_if(old.namespace_watch_request_id, request_id)
        &&& match result {
            Ok(Some(names)) => texts_view(new.namespaces@) == names && new.namespace_status == LoadStatus::Loaded,
            Ok(None) => new.same_namespaces(&old),
            Err(e) => new.namespaces == old.namespaces && new.namespace_status == LoadStatus::Error(e),
        }
        &&& new.same_requests_but_namespace_watch(&old)
        &&& new.same_rows(&old)
        &&& new.same_dialogs(&old)
        &&& new.same_view(&old)
    }

    /// The rows after new rows replace them: the selection keeps only keys
    /// that a new row has.
    pub open spec fn rows_replaced(old: Self, new: Self, rows: Seq<R::V>) -> bool {
        &&& views(new.rows@) == rows
        &&& new.selected_rows@ == old.selected_rows@.intersect(row_keys::<R>(rows))
        &&& new.row_status == LoadStatus::Loaded
    }

    /// The rows are unchanged but for the error recorded.
    pub open spec fn rows_failed(old: Self, new: Self, e: String) -> bool {
        &&& new.rows == old.rows
        &&& new.selected_rows == old.selected_rows
        &&& new.row_status == LoadStatus::Error(e)
    }

    /// What a row list answer does: nothing unless it answers the current
    /// request; then the request is done and the rows are replaced or the
    /// error recorded.
    pub open spec fn rows_load_post(old: Self, new: Self, request_id: u64, result: Result<Seq<R::V>, String>) -> bool {
        if old.row_request_id != Some(request_id) {
            new == old
        } else {
            &&& new.row_request_id is None
            &&& match result {
                Ok(rows) => Self::rows_replaced(old, new, rows),
                Err(e) => Self::rows_failed(old, new, e),
            }
            &&& new.next_request_id == old.next_request_id
            &&& new.namespace_request_id == old.namespace_request_id
            &&& new.namespace_watch_request_id == old.namespace_watch_request_id
            &&& new.row_watch_request_id == old.row_watch_request_id
            &&& new.action_request_id == old.action_request_id
            &&& new.same_namespaces(&old)
            &&& new.same_dialogs(&old)
            &&& new.same_view(&old)
        }
    }

    /// What a row watch answer does: nothing unless it answers the current
    /// watch, which stays current; a snapshot replaces the rows.
    pub open spec fn rows_watch_post(old: Self, new: Self, request_id: u64, result: Result<Option<Seq<R::V>>, String>) -> bool {
        if old.row_watch_request_id != Some(request_id) {
            new == old
        } else {
            &&& match result {
                Ok(Some(rows)) => Self::rows_replaced(old, new, rows),
                Ok(None) => new.same_rows(&old),
                Err(e) => Self::rows_failed(old, new, e),
            }
            &&& new.same_requests(&old)
            &&& new.same_namespaces(&old)
            &&& new.same_dialogs(&old)
            &&& new.same_view(&old)
        }
    }

    /// What an action result does: nothing unless it answers the panel's
    /// current action.  A success closes the dialog that sent it and clears
    /// the error; a failure keeps the dialogs and records the error.
    pub open spec fn action_post(old: Self, new: Self, request_id: u64, effect: ActionEffect<R::V>) -> bool {
        if old.action_request_id != Some(request_id) {
            new == old
        } else {
            &&& new.action_request_id is None
            &&& new.next_request_id == old.next_request_id
            &&& new.namespace_request_id == old.namespace_request_id
            &&& new.row_request_id == old.row_request_id
            &&& new.namespace_watch_request_id == old.namespace_watch_request_id
            &&& new.row_watch_request_id == old.row_watch_request_id
            &&& new.same_namespaces(&old)
            &&& new.same_view(&old)
            &&& new.row_status == old.row_status
            &&& match effect {
                ActionEffect::Applied(row) => {
                    &&& views(new.rows@) == upsert_views::<R>(views(old.rows@), row)
                    &&& new.selected_rows == old.selected_rows
                    &&& new.create_dialog is None
                    &&& new.edit_dialog is None
                    &&& new.action_error is None
                    &&& new.batch_delete_dialog == old.batch_delete_dialog
                    &&& new.delete_dialog == old.delete_dialog
                },
                ActionEffect::Deleted(key) => {
                    &&& match key {
                        Some(k) => {
                            &&& views(new.rows@) == without_key::<R>(views(old.rows@), k)
                            &&& new.selected_rows@ == old.selected_rows@.remove(k)
                        },
                        None => {
                            &&& new.rows == old.rows
                            &&& new.selected_rows == old.selected_rows
                        },
                    }
                    &&& new.delete_dialog is None
                    &&& new.action_error is None
                    &&& new.create_dialog == old.create_dialog
                    &&& new.edit_dialog == old.edit_dialog
                    &&& new.batch_delete_dialog == old.batch_delete_dialog
                },
                ActionEffect::BatchDeleted(keys) => {
                    &&& views(new.rows@) == without_keys::<R>(views(old.rows@), keys)
                    &&& new.selected_rows@ == old.selected_rows@.difference(keys.to_set())
                    &&& new.batch_delete_dialog is None
                    &&& new.action_error is None
                    &&& new.create_dialog == old.create_dialog
                    &&& new.edit_dialog == old.edit_dialog
                    &&& new.delete_dialog == old.delete_dialog
                },
                ActionEffect::Unchanged => {
                    &&& new.rows == old.rows
                    &&& new.selected_rows == old.selected_rows
                    &&& new.same_dialogs(&old)
                },
                ActionEffect::Failed(e) => {
                    &&& new.rows == old.rows
                    &&& new.selected_rows == old.selected_rows
                    &&& new.action_error == Some(e)
                    &&& new.create_dialog == old.create_dialog
                    &&& new.edit_dialog == old.edit_dialog
                    &&& new.batch_delete_dialog == old.batch_delete_dialog
                    &&& new.delete_dialog == old.delete_dialog
                },
            }
        }
    }

    /// Takes the answer to a namespace list request.
    pub fn apply_namespace_load(&mut self, request_id: u64, result: Result<Vec<String>, String>)
        requires
            old(self).wf(),
        ensures
            final(self).wf(),
            Self::namespace_load_post(*old(self), *final(self), request_id, names_result(result)),
    {
        if self.namespace_request_id == Some(request_id) {
            self.namespace_request_id = None;
        }
        match result {
            Ok(names) => {
                self.namespaces = names;
                self.namespace_status = LoadStatus::Loaded;
            },
            Err(error) => self.namespace_status = LoadStatus::Error(error),
        }
    }

    /// Takes a namespace watch answer: a snapshot (`Ok(Some(..))`), another
    /// change (`Ok(None)`), or an error.
    pub fn apply_namespace_watch(&mut self, request_id: u64, result: Result<Option<Vec<String>>, String>)
        requires
            old(self).wf(),
        ensures
            final(self).wf(),
            Self::namespace_watch_post(*old(self), *final(self), request_id, names_watch_result(result)),
    {
        if self.namespace_watch_request_id == Some(request_id) {
            self.namespace_watch_request_id = None;
        }
        match result {
            Ok(Some(names)) => {
                self.namespaces = names;
                self.namespace_status = LoadStatus::Loaded;
            },
            Ok(None) => {},
            Err(error) => self.namespace_status = LoadStatus::Error(error),
        }
    }

    /// Takes the answer to a row list request.
    pub fn apply_rows_load(&mut self, request_id: u64, result: Result<Vec<R>, String>)
        requires
            old(self).wf(),
        ensures
            final(self).wf(),
            Self::rows_load_post(*old(self), *final(self), request_id, rows_result::<R>(result)),
    {
        if self.row_request_id != Some(request_id) {
            return;
        }
        self.row_request_id = None;
        match result {
            Ok(rows) => {
                self.replace_rows(rows);
                self.row_status = LoadStatus::Loaded;
            },
            Err(error) => self.row_status = LoadStatus::Error(error),
        }
    }

    /// Takes a row watch answer.
    pub fn apply_rows_watch(&mut self, request_id: u64, result: Result<Option<Vec<R>>, String>)
        requires
            old(self).wf(),
        ensures
            final(self).wf(),
            Self::rows_watch_post(*old(self), *final(self), request_id, rows_watch_result::<R>(result)),
    {
        if self.row_watch_request_id != Some(request_id) {
            return;
        }
        match result {
            Ok(Some(rows)) => {
                self.replace_rows(rows);
                self.row_status = LoadStatus::Loaded;
            },
            Ok(None) => {},
            Err(error) => self.row_status = LoadStatus::Error(error),
        }
    }

    /// Takes the result of an action.
    pub fn apply_action_result(&mut self, request_id: u64, outcome: ActionResult<R>)
        requires
            old(self).wf(),
        ensures
            final(self).wf(),
            Self::action_post(*old(self), *final(self), request_id, action_effect::<R>(outcome)),
    {
        if self.action_request_id != Some(request_id) {
            return;
        }
        self.action_request_id = None;
        match outcome {
            ActionResult::Applied(row) => {
                self.upsert_row(row);
                self.create_dialog = None;
                self.edit_dialog = None;
                self.action_error = None;
            },
            ActionResult::Deleted(key) => {
                match key {
                    Some(k) => self.remove_key(k.as_str()),
                    None => {},
                }
                self.delete_dialog = None;
                self.action_error = None;
            },
            ActionResult::BatchDeleted(keys) => {
                self.remove_keys(&keys);
                self.batch_delete_dialog = None;
                self.action_error = None;
            },
            ActionResult::Unchanged => {},
            ActionResult::Failed(error) => self.action_error = Some(error),
        }
    }

    /// Drops the rows with any of the keys, and the keys from the selection.
    pub fn remove_keys(&mut self, keys: &Vec<String>)
        requires
            old(self).wf(),
        ensures
            final(self).wf(),
            views(final(self).rows@) == without_keys::<R>(views(old(self).rows@), texts_view(keys@)),
            final(self).selected_rows@ == old(self).selected_rows@.difference(texts_view(keys@).to_set()),
            final(self).row_status == old(self).row_status,
            final(self).same_requests(old(self)),
            final(self).same_dialogs(old(self)),
            final(self).same_namespaces(old(self)),
            final(self).same_view(old(self)),
    {
        let ghost start = views(self.rows@);
        let ghost start_sel = self.selected_rows@;
        let ghost ks = texts_view(keys@);
        let mut i: usize = 0;
        assert(ks.skip(0) =~= ks);
        assert(start_sel.difference(ks.take(0).to_set()) =~= start_sel);
        while i < keys.len()
            invariant
                self.wf(),
                i <= keys@.len(),
                ks == texts_view(keys@),
                without_keys::<R>(start, ks) == without_keys::<R>(views(self.rows@), ks.skip(i as int)),
                self.selected_rows@ == start_sel.difference(ks.take(i as int).to_set()),
                self.row_status == old(self).row_status,
                self.same_requests(old(self)),
                self.same_dialogs(old(self)),
                self.same_namespaces(old(self)),
                self.same_view(old(self)),
            decreases keys@.len() - i,
        {
            let ghost before = views(self.rows@);
            let ghost sel_before = self.selected_rows@;
            self.remove_key(keys[i].as_str());
            proof {
                assert(ks[i as int] == keys@[i as int]@);
                assert(ks.skip(i as int)[0] == ks[i as int]);
                assert(ks.skip(i as int).drop_first() =~= ks.skip(i + 1));
                assert(ks.take(i + 1) =~= ks.take(i as int).push(ks[i as int]));
                ks.take(i as int).lemma_push_to_set_commute(ks[i as int]);
                assert(self.selected_rows@ =~= start_sel.difference(ks.take(i + 1).to_set()));
            }
            i = i + 1;
        }
        proof {
            assert(ks.skip(i as int).len() == 0);
            assert(ks.take(i as int) =~= ks);
        }
    }

    /// Forgets everything about the previous cluster when the panel is shown
    /// for another one; nothing changes for the same cluster.
    pub fn reset_for_cluster_change(&mut self, cluster_id: &ClusterId)
        requires
            old(self).wf(),
        ensures
            final(self).wf(),
            cluster_view(old(self).last_cluster_id) == Some(cluster_id.id@) ==> *final(self) == *old(self),
            cluster_view(old(self).last_cluster_id) != Some(cluster_id.id@) ==> {
                &&& final(self).is_initial()
                &&& cluster_view(final(self).last_cluster_id) == Some(cluster_id.id@)
                &&& final(self).next_request_id == old(self).next_request_id
            },
    {
        let same = match &self.last_cluster_id {
            Some(last) => last.same(cluster_id),
            None => false,
        };
        if same {
            return;
        }
        self.last_cluster_id = Some(cluster_id.duplicate());
        self.namespace_filter = None;
        self.search_text = String::new();
        self.namespaces = Vec::new();
        self.rows = Vec::new();
        self.selected_rows.clear();
        self.namespace_status = LoadStatus::Idle;
        self.row_status = LoadStatus::Idle;
        self.namespace_request_id = None;
        self.row_request_id = None;
        self.namespace_watch_request_id = None;
        self.row_watch_request_id = None;
        self.edit_dialog = None;
        self.create_dialog = None;
        self.batch_delete_dialog = None;
        self.delete_dialog = None;
        self.action_request_id = None;
        self.action_error = None;
        assert(self.selected_rows@.subset_of(row_keys::<R>(views(self.rows@))));
    }

    /// A fresh request id: one more than the last.
    pub fn allocate_request_id(&mut self) -> (r: u64)
        requires
            old(self).next_request_id < u64::MAX,
        ensures
            r == old(self).next_request_id + 1,
            final(self).next_request_id == r,
            final(self).namespace_request_id == old(self).namespace_request_id,
            final(self).row_request_id == old(self).row_request_id,
            final(self).namespace_watch_request_id == old(self).namespace_watch_request_id,
            final(self).row_watch_request_id == old(self).row_watch_request_id,
            final(self).action_request_id == old(self).action_request_id,
            final(self).same_rows(old(self)),
            final(self).same_namespaces(old(self)),
            final(self).same_dialogs(old(self)),
            final(self).same_view(old(self)),
    {
        self.next_request_id = self.next_request_id + 1;
        self.next_request_id
    }

    /// Starts a row list request: its id becomes the current one and the
    /// rows are loading.
    pub fn begin_row_load(&mut self) -> (r: u64)
        requires
            old(self).next_request_id < u64::MAX,
        ensures
            r == old(self).next_request_id + 1,
            final(self).next_request_id == r,
            final(self).row_request_id == Some(r),
            final(self).row_status == LoadStatus::Loading,
            final(self).namespace_request_id == old(self).namespace_request_id,
            final(self).namespace_watch_request_id == old(self).namespace_watch_request_id,
            final(self).row_watch_request_id == old(self).row_watch_request_id,
            final(self).action_request_id == old(self).action_request_id,
            final(self).rows == old(self).rows,
            final(self).selected_rows == old(self).selected_rows,
            final(self).same_namespaces(old(self)),
            final(self).same_dialogs(old(self)),
            final(self).same_view(old(self)),
    {
        let id = self.allocate_request_id();
        self.row_request_id = Some(id);
        self.row_status = LoadStatus::Loading;
        id
    }

    /// Starts the namespace watch: its id becomes the current one and the
    /// namespaces are loading.
    pub fn begin_namespace_watch(&mut self) -> (r: u64)
        requires
            old(self).next_request_id < u64::MAX,
        ensures
            r == old(self).next_request_id + 1,
            final(self).next_request_id == r,
            final(self).namespace_watch_request_id == Some(r),
            final(self).namespace_status == LoadStatus::Loading,
            final(self).namespaces == old(self).namespaces,
            final(self).namespace_request_id == old(self).namespace_request_id,
            final(self).row_request_id == old(self).row_request_id,
            final(self).row_watch_request_id == old(self).row_watch_request_id,
            final(self).action_request_id == old(self).action_request_id,
            final(self).same_rows(old(self)),
            final(self).same_dialogs(old(self)),
            final(self).same_view(old(self)),
    {
        let id = self.allocate_request_id();
        self.namespace_watch_request_id = Some(id);
        self.namespace_status = LoadStatus::Loading;
        id
    }

    /// Starts the row watch: its id becomes the current one and the rows are
    /// loading.
    pub fn begin_row_watch(&mut self) -> (r: u64)
        requires
            old(self).next_request_id < u64::MAX,
        ensures
            r == old(self).next_request_id + 1,
            final(self).next_request_id == r,
            final(self).row_watch_request_id == Some(r),
            final(self).row_status == LoadStatus::Loading,
            final(self).namespace_request_id == old(self).namespace_request_id,
            final(self).row_request_id == old(self).row_request_id,
            final(self).namespace_watch_request_id == old(self).namespace_watch_request_id,
            final(self).action_request_id == old(self).action_request_id,
            final(self).rows == old(self).rows,
            final(self).selected_rows == old(self).selected_rows,
            final(self).same_namespaces(old(self)),
            final(self).same_dialogs(old(self)),
            final(self).same_view(old(self)),
    {
        let id = self.allocate_request_id();
        self.row_watch_request_id = Some(id);
        self.row_status = LoadStatus::Loading;
        id
    }

    /// The delete targets of the selected rows, in row order.
    pub fn selected_delete_targets(&self) -> (r: Vec<ResourceDeleteTarget>)
        ensures
            delete_targets_view(r@) == selected_targets_spec(row_targets::<R>(views(self.rows@)), self.selected_rows@),
    {
        let targets = targets_of(&self.rows);
        assert(targets_view(targets@) =~= row_targets::<R>(views(self.rows@)));
        selected_delete_targets(targets.as_slice(), &self.selected_rows)
    }
}

/// The targets of a list of rows.
pub fn targets_of<R: PanelRow>(rows: &Vec<R>) -> (r: Vec<ResourceRowTarget>)
    ensures
        r@.len() == rows@.len(),
        forall|i: int| 0 <= i < rows@.len() ==> {
            &&& (#[trigger] r@[i]).key@ == R::key_of(rows@[i]@)
            &&& opt_view(r@[i].namespace) == R::namespace_of(rows@[i]@)
            &&& r@[i].name@ == R::name_of(rows@[i]@)
        },
{
    let mut out: Vec<ResourceRowTarget> = Vec::new();
    let mut i: usize = 0;
    while i < rows.len()
        invariant
            i <= rows@.len(),
            out@.len() == i,
            forall|j: int| 0 <= j < i ==> {
                &&& (#[trigger] out@[j]).key@ == R::key_of(rows@[j]@)
                &&& opt_view(out@[j].namespace) == R::namespace_of(rows@[j]@)
                &&& out@[j].name@ == R::name_of(rows@[j]@)
            },
        decreases rows@.len() - i,
    {
        out.push(rows[i].target());
        i = i + 1;
    }
    out
}

proof fn lemma_target_keys<R: PanelRow>(targets: Seq<ResourceRowTarget>, rows: Seq<R>)
    requires
        targets.len() == rows.len(),
        forall|i: int| 0 <= i < rows.len() ==> (#[trigger] targets[i]).key@ == R::key_of(rows[i]@),
    ensures
        target_keys(targets).to_set() == row_keys::<R>(views(rows)),
{
    assert(target_keys(targets) =~= views(rows).map_values(|v: R::V| R::key_of(v)));
}

/// Permutations have the same elements.
proof fn lemma_same_multiset_contains<A>(s: Seq<A>, t: Seq<A>, x: A)
    requires
        s.to_multiset() == t.to_multiset(),
    ensures
        s.contains(x) <==> t.contains(x),
{
    vstd::seq_lib::to_multiset_contains(s, x);
    vstd::seq_lib::to_multiset_contains(t, x);
}

/// Table order rearranges rows: it keeps each row as often as it was there.
pub proof fn lemma_sort_views_permutes<R: TableRow>(s: Seq<R::V>)
    ensures
        sort_views::<R>(s).to_multiset() == s.to_multiset(),
    decreases s.len(),
{
    if s.len() > 0 {
        let rest = sort_views::<R>(s.drop_last());
        lemma_sort_views_permutes::<R>(s.drop_last());
        crate::resource_panel::table::lemma_insert_pos_bounds::<R>(rest, s.last());
        vstd::seq_lib::to_multiset_insert(rest, insert_pos::<R>(rest, s.last()), s.last());
        vstd::seq_lib::to_multiset_build(s.drop_last(), s.last());
        assert(s.drop_last().push(s.last()) =~= s);
    } else {
        assert(sort_views::<R>(s) =~= s);
    }
}

proof fn lemma_keys_contains<R: TableRow>(s: Seq<R::V>, k: Seq<char>)
    ensures
        row_keys::<R>(s).contains(k) <==> exists|i: int| 0 <= i < s.len() && R::key_of(#[trigger] s[i]) == k,
{
    let m = s.map_values(|v: R::V| R::key_of(v));
    if row_keys::<R>(s).contains(k) {
        assert(m.contains(k));
        let i = choose|i: int| 0 <= i < m.len() && m[i] == k;
        assert(R::key_of(s[i]) == k);
    }
    if exists|i: int| 0 <= i < s.len() && R::key_of(#[trigger] s[i]) == k {
        let i = choose|i: int| 0 <= i < s.len() && R::key_of(#[trigger] s[i]) == k;
        assert(m[i] == k);
    }
}

proof fn lemma_permuted_keys<R: TableRow>(s: Seq<R::V>, t: Seq<R::V>)
    requires
        s.to_multiset() == t.to_multiset(),
    ensures
        row_keys::<R>(s) == row_keys::<R>(t),
{
    assert forall|k: Seq<char>| row_keys::<R>(s).contains(k) implies row_keys::<R>(t).contains(k) by {
        lemma_keys_contains::<R>(s, k);
        lemma_keys_contains::<R>(t, k);
        let i = choose|i: int| 0 <= i < s.len() && R::key_of(#[trigger] s[i]) == k;
        lemma_same_multiset_contains(s, t, s[i]);
        let j = choose|j: int| 0 <= j < t.len() && t[j] == s[i];
        assert(R::key_of(t[j]) == k);
    }
    assert forall|k: Seq<char>| row_keys::<R>(t).contains(k) implies row_keys::<R>(s).contains(k) by {
        lemma_keys_contains::<R>(s, k);
        lemma_keys_contains::<R>(t, k);
        let i = choose|i: int| 0 <= i < t.len() && R::key_of(#[trigger] t[i]) == k;
        lemma_same_multiset_contains(s, t, t[i]);
        let j = choose|j: int| 0 <= j < s.len() && s[j] == t[i];
        assert(R::key_of(s[j]) == k);
    }
    assert(row_keys::<R>(s) =~= row_keys::<R>(t));
}

/// An upsert keeps every key and adds the new row's key.
pub proof fn lemma_upsert_keeps_keys<R: TableRow>(s: Seq<R::V>, row: R::V)
    ensures
        row_keys::<R>(upsert_views::<R>(s, row)) == row_keys::<R>(s).insert(R::key_of(row)),
{
    let replaced = match key_index::<R>(s, R::key_of(row)) {
        Some(i) => s.update(i, row),
        None => s.push(row),
    };
    lemma_sort_views_permutes::<R>(replaced);
    lemma_permuted_keys::<R>(sort_views::<R>(replaced), replaced);
    lemma_key_index::<R>(s, R::key_of(row));
    assert forall|k: Seq<char>| row_keys::<R>(replaced).contains(k) <==> row_keys::<R>(s).insert(R::key_of(row)).contains(k) by {
        lemma_keys_contains::<R>(s, k);
        lemma_keys_contains::<R>(replaced, k);
        match key_index::<R>(s, R::key_of(row)) {
            Some(i) => {
                if row_keys::<R>(replaced).contains(k) {
                    let j = choose|j: int| 0 <= j < replaced.len() && R::key_of(#[trigger] replaced[j]) == k;
                    if j != i {
                        assert(s[j] == replaced[j]);
                    }
                }
                if row_keys::<R>(s).contains(k) {
                    let j = choose|j: int| 0 <= j < s.len() && R::key_of(#[trigger] s[j]) == k;
                    if j != i {
                        assert(s[j] == replaced[j]);
                    } else {
                        assert(R::key_of(replaced[i]) == k);
                    }
                }
                if k == R::key_of(row) {
                    assert(R::key_of(replaced[i]) == k);
                }
            },
            None => {
                if row_keys::<R>(replaced).contains(k) {
                    let j = choose|j: int| 0 <= j < replaced.len() && R::key_of(#[trigger] replaced[j]) == k;
                    if j < s.len() {
                        assert(s[j] == replaced[j]);
                    }
                }
                if row_keys::<R>(s).contains(k) {
                    let j = choose|j: int| 0 <= j < s.len() && R::key_of(#[trigger] s[j]) == k;
                    assert(s[j] == replaced[j]);
                }
                if k == R::key_of(row) {
                    assert(replaced[s.len() as int] == row);
                }
            },
        }
    }
    assert(row_keys::<R>(replaced) =~= row_keys::<R>(s).insert(R::key_of(row)));
}

/// `key_index` finds the first row with the key, if any.
pub proof fn lemma_key_index<R: TableRow>(s: Seq<R::V>, key: Seq<char>)
    ensures
        match key_index::<R>(s, key) {
            Some(i) => 0 <= i < s.len() && R::key_of(s[i]) == key
                && forall|j: int| 0 <= j < i ==> R::key_of(#[trigger] s[j]) != key,
            None => forall|j: int| 0 <= j < s.len() ==> R::key_of(#[trigger] s[j]) != key,
        },
    decreases s.len(),
{
    if s.len() > 0 && R::key_of(s[0]) != key {
        let t = s.drop_first();
        lemma_key_index::<R>(t, key);
        match key_index::<R>(t, key) {
            Some(i) => {
                assert(s[i + 1] == t[i]);
                assert forall|j: int| 0 <= j < i + 1 implies R::key_of(#[trigger] s[j]) != key by {
                    if j > 0 {
                        assert(s[j] == t[j - 1]);
                    }
                }
            },
            None => {
                assert forall|j: int| 0 <= j < s.len() implies R::key_of(#[trigger] s[j]) != key by {
                    if j > 0 {
                        assert(s[j] == t[j - 1]);
                    }
                }
            },
        }
    }
}

/// Removing a key removes exactly that key from the rows' keys.
pub proof fn lemma_without_key_keys<R: TableRow>(s: Seq<R::V>, key: Seq<char>)
    ensures
        row_keys::<R>(without_key::<R>(s, key)) == row_keys::<R>(s).remove(key),
    decreases s.len(),
{
    if s.len() > 0 {
        let rest = without_key::<R>(s.drop_last(), key);
        lemma_without_key_keys::<R>(s.drop_last(), key);
        assert forall|k: Seq<char>| row_keys::<R>(without_key::<R>(s, key)).contains(k) <==> row_keys::<R>(s).remove(key).contains(k) by {
            lemma_keys_contains::<R>(s, k);
            lemma_keys_contains::<R>(s.drop_last(), k);
            lemma_keys_contains::<R>(rest, k);
            lemma_keys_contains::<R>(without_key::<R>(s, key), k);
            if R::key_of(s.last()) != key {
                let w = rest.push(s.last());
                if row_keys::<R>(w).contains(k) {
                    let j = choose|j: int| 0 <= j < w.len() && R::key_of(#[trigger] w[j]) == k;
                    if j < rest.len() {
                        assert(w[j] == rest[j]);
                    } else {
                        assert(s[s.len() - 1] == s.last());
                    }
                }
                if row_keys::<R>(s).remove(key).contains(k) {
                    let j = choose|j: int| 0 <= j < s.len() && R::key_of(#[trigger] s[j]) == k;
                    if j < s.len() - 1 {
                        assert(s.drop_last()[j] == s[j]);
                        let m = choose|m: int| 0 <= m < rest.len() && R::key_of(#[trigger] rest[m]) == k;
                        assert(w[m] == rest[m]);
                    } else {
                        assert(w[rest.len() as int] == s.last());
                    }
                }
            } else {
                if row_keys::<R>(s).remove(key).contains(k) {
                    let j = choose|j: int| 0 <= j < s.len() && R::key_of(#[trigger] s[j]) == k;
                    assert(j < s.len() - 1);
                    assert(s.drop_last()[j] == s[j]);
                }
                if row_keys::<R>(rest).contains(k) {
                    let j = choose|j: int| 0 <= j < s.drop_last().len() && R::key_of(#[trigger] s.drop_last()[j]) == k;
                    assert(s[j] == s.drop_last()[j]);
                }
            }
        }
        assert(row_keys::<R>(without_key::<R>(s, key)) =~= row_keys::<R>(s).remove(key));
    } else {
        assert(row_keys::<R>(s) =~= Set::<Seq<char>>::empty());
        assert(row_keys::<R>(without_key::<R>(s, key)) =~= Set::<Seq<char>>::empty());
    }
}


/// The names in a namespace list answer.
pub open spec fn list_names_result(r: Result<ResourceList, String>) -> Result<Seq<Seq<char>>, String> {
    match r {
        Ok(list) => Ok(namespace_names(list.items@)),
        Err(e) => Err(e),
    }
}

/// The names in a namespace watch answer; none for a change that is not a
/// snapshot.
pub open spec fn watch_names_result(r: Result<ResourceEvent, String>) -> Result<Option<Seq<Seq<char>>>, String> {
    match r {
        Ok(ResourceEvent::Snapshot(list)) => Ok(Some(namespace_names(list.items@))),
        Ok(_) => Ok(None),
        Err(e) => Err(e),
    }
}

/// The namespace names of a list answer.
pub fn names_of_load(result: Result<ResourceList, String>) -> (r: Result<Vec<String>, String>)
    ensures
        names_result(r) == list_names_result(result),
{
    match result {
        Ok(list) => Ok(namespaces_from_list(&list)),
        Err(e) => Err(e),
    }
}

/// The namespace names of a watch answer.
pub fn names_of_watch(result: Result<ResourceEvent, String>) -> (r: Result<Option<Vec<String>>, String>)
    ensures
        names_watch_result(r) == watch_names_result(result),
{
    match result {
        Ok(ResourceEvent::Snapshot(list)) => Ok(Some(namespaces_from_list(&list))),
        Ok(_) => Ok(None),
        Err(e) => Err(e),
    }
}

impl<R: PanelRow> PanelState<R> {
    /// The index of the first row with `key`.
    pub fn row_index(&self, key: &str) -> (r: Option<usize>)
        ensures
            r matches Some(i) ==> i < self.rows@.len() && R::key_of(self.rows@[i as int]@) == key@,
            match key_index::<R>(views(self.rows@), key@) {
                Some(i) => r == Some(i as usize),
                None => r is None,
            },
    {
        let ghost s = views(self.rows@);
        proof {
            lemma_key_index::<R>(s, key@);
        }
        let mut i: usize = 0;
        while i < self.rows.len()
            invariant
                i <= self.rows@.len(),
                s == views(self.rows@),
                forall|j: int| 0 <= j < i ==> R::key_of(#[trigger] s[j]) != key@,
                match key_index::<R>(s, key@) {
                    Some(m) => 0 <= m < s.len() && R::key_of(s[m]) == key@
                        && forall|j: int| 0 <= j < m ==> R::key_of(#[trigger] s[j]) != key@,
                    None => forall|j: int| 0 <= j < s.len() ==> R::key_of(#[trigger] s[j]) != key@,
                },
            decreases self.rows@.len() - i,
        {
            assert(s[i as int] == self.rows@[i as int]@);
            if str_eq(self.rows[i].row_key(), key) {
                proof {
                    match key_index::<R>(s, key@) {
                        Some(m) => {
                            if m > i {
                                assert(R::key_of(s[i as int]) != key@);
                            }
                            assert(m >= i);
                        },
                        None => {
                            assert(R::key_of(s[i as int]) != key@);
                        },
                    }
                }
                return Some(i);
            }
            i = i + 1;
        }
        None
    }

    /// Opens the delete dialog for the row with `key` and clears the action
    /// error; nothing happens when no row has the key.
    pub fn open_delete_dialog(&mut self, key: &str)
        requires
            old(self).wf(),
        ensures
            final(self).wf(),
            match key_index::<R>(views(old(self).rows@), key@) {
                Some(i) => {
                    let v = views(old(self).rows@)[i];
                    &&& final(self).delete_dialog matches Some(d) && opt_view(d.target.namespace) == R::namespace_of(v)
                        && d.target.name@ == R::name_of(v)
                    &&& final(self).action_error is None
                    &&& final(self).edit_dialog == old(self).edit_dialog
                    &&& final(self).create_dialog == old(self).create_dialog
                    &&& final(self).batch_delete_dialog == old(self).batch_delete_dialog
                },
                None => final(self).same_dialogs(old(self)),
            },
            final(self).same_requests(old(self)),
            final(self).same_rows(old(self)),
            final(self).same_namespaces(old(self)),
            final(self).same_view(old(self)),
    {
        proof {
            lemma_key_index::<R>(views(self.rows@), key@);
        }
        match self.row_index(key) {
            Some(i) => {
                assert(views(self.rows@)[i as int] == self.rows@[i as int]@);
                let target = self.rows[i].target();
                self.delete_dialog = Some(GenericDeleteDialog {
                    target: ResourceDeleteTarget { namespace: target.namespace, name: target.name },
                });
                self.action_error = None;
            },
            None => {},
        }
    }

    /// A click on a row outside its checkbox: the row with `key` becomes the
    /// only selected row; nothing happens when no row has the key.
    pub fn select_only_row(&mut self, key: &str)
        requires
            old(self).wf(),
        ensures
            final(self).wf(),
            final(self).selected_rows@ == if row_keys::<R>(views(old(self).rows@)).contains(key@) {
                set![key@]
            } else {
                old(self).selected_rows@
            },
            final(self).rows == old(self).rows,
            final(self).row_status == old(self).row_status,
            final(self).same_requests(old(self)),
            final(self).same_dialogs(old(self)),
            final(self).same_namespaces(old(self)),
            final(self).same_view(old(self)),
    {
        proof {
            lemma_key_index::<R>(views(self.rows@), key@);
            lemma_keys_contains::<R>(views(self.rows@), key@);
        }
        match self.row_index(key) {
            Some(i) => {
                proof {
                    assert(views(self.rows@)[i as int] == self.rows@[i as int]@);
                }
                self.selected_rows.select_only(key);
            },
            None => {},
        }
    }

    /// A row's checkbox: selects or unselects the row with `key`; nothing
    /// happens when no row has the key.
    pub fn set_row_selected(&mut self, key: &str, selected: bool)
        requires
            old(self).wf(),
        ensures
            final(self).wf(),
            final(self).selected_rows@ == if !row_keys::<R>(views(old(self).rows@)).contains(key@) {
                old(self).selected_rows@
            } else if selected {
                old(self).selected_rows@.insert(key@)
            } else {
                old(self).selected_rows@.remove(key@)
            },
            final(self).rows == old(self).rows,
            final(self).row_status == old(self).row_status,
            final(self).same_requests(old(self)),
            final(self).same_dialogs(old(self)),
            final(self).same_namespaces(old(self)),
            final(self).same_view(old(self)),
    {
        proof {
            lemma_key_index::<R>(views(self.rows@), key@);
            lemma_keys_contains::<R>(views(self.rows@), key@);
        }
        match self.row_index(key) {
            Some(i) => {
                proof {
                    assert(views(self.rows@)[i as int] == self.rows@[i as int]@);
                }
                if selected {
                    self.selected_rows.insert(key);
                } else {
                    self.selected_rows.remove(key);
                }
            },
            None => {},
        }
    }

    /// Opens the edit dialog for the row with `key` on the given YAML and
    /// clears the action error; nothing happens when no row has the key.
    pub fn open_edit_dialog(&mut self, key: &str, yaml: String)
        requires
            old(self).wf(),
        ensures
            final(self).wf(),
            match key_index::<R>(views(old(self).rows@), key@) {
                Some(i) => {
                    let v = views(old(self).rows@)[i];
                    &&& final(self).edit_dialog matches Some(d) && d.target.key@ == R::key_of(v)
                        && opt_view(d.target.namespace) == R::namespace_of(v) && d.target.name@ == R::name_of(v)
                        && d.yaml == yaml && d.parse_error is None
                    &&& final(self).action_error is None
                    &&& final(self).delete_dialog == old(self).delete_dialog
                    &&& final(self).create_dialog == old(self).create_dialog
                    &&& final(self).batch_delete_dialog == old(self).batch_delete_dialog
                },
                None => final(self).same_dialogs(old(self)),
            },
            final(self).same_requests(old(self)),
            final(self).same_rows(old(self)),
            final(self).same_namespaces(old(self)),
            final(self).same_view(old(self)),
    {
        proof {
            lemma_key_index::<R>(views(self.rows@), key@);
        }
        match self.row_index(key) {
            Some(i) => {
                assert(views(self.rows@)[i as int] == self.rows@[i as int]@);
                let target = self.rows[i].target();
                self.edit_dialog = Some(GenericEditDialog { target, yaml, parse_error: None });
                self.action_error = None;
            },
            None => {},
        }
    }

    /// The indices of the rows the panel's search text matches.
    pub fn filtered_row_indices(&self) -> (r: Vec<usize>)
        ensures
            r@.len() == matching_indices::<R>(views(self.rows@), search_needle(self.search_text@)).len(),
            forall|i: int| 0 <= i < r@.len() ==> r@[i] as int == matching_indices::<R>(views(self.rows@), search_needle(self.search_text@))[i],
    {
        filter_rows(self.rows.as_slice(), self.search_text.as_str())
    }

    /// How many rows the panel's search text matches.
    pub fn filtered_row_count(&self) -> (r: usize)
        ensures
            r == matching_indices::<R>(views(self.rows@), search_needle(self.search_text@)).len(),
    {
        self.filtered_row_indices().len()
    }

    /// Keeps only the selected keys of rows that the search shows.
    pub fn prune_selection_to_visible(&mut self)
        requires
            old(self).wf(),
        ensures
            final(self).wf(),
            final(self).selected_rows@ == old(self).selected_rows@.intersect(
                visible_row_keys::<R>(views(old(self).rows@), search_needle(old(self).search_text@)),
            ),
            final(self).rows == old(self).rows,
            final(self).row_status == old(self).row_status,
            final(self).same_requests(old(self)),
            final(self).same_dialogs(old(self)),
            final(self).same_namespaces(old(self)),
            final(self).same_view(old(self)),
    {
        let indices = self.filtered_row_indices();
        let ghost s = views(self.rows@);
        let ghost m = matching_indices::<R>(s, search_needle(self.search_text@));
        proof {
            lemma_matching_indices_bounds::<R>(s, search_needle(self.search_text@));
        }
        let mut targets: Vec<ResourceRowTarget> = Vec::new();
        let mut i: usize = 0;
        while i < indices.len()
            invariant
                i <= indices@.len(),
                indices@.len() == m.len(),
                forall|j: int| 0 <= j < indices@.len() ==> indices@[j] as int == m[j],
                forall|j: int| 0 <= j < m.len() ==> 0 <= #[trigger] m[j] < s.len(),
                s == views(self.rows@),
                targets@.len() == i,
                forall|j: int| 0 <= j < i ==> (#[trigger] targets@[j]).key@ == R::key_of(s[m[j]]),
            decreases indices@.len() - i,
        {
            let index = indices[i];
            assert(0 <= m[i as int] < s.len());
            assert(s[index as int] == self.rows@[index as int]@);
            targets.push(self.rows[index].target());
            i = i + 1;
        }
        let keys = visible_keys(targets.as_slice());
        proof {
            assert forall|k: Seq<char>| target_keys(targets@).to_set().contains(k) <==> visible_row_keys::<R>(s, search_needle(self.search_text@)).contains(k) by {
                if target_keys(targets@).to_set().contains(k) {
                    assert(target_keys(targets@).contains(k));
                    let j = choose|j: int| 0 <= j < target_keys(targets@).len() && target_keys(targets@)[j] == k;
                    assert(targets@[j].key@ == k);
                    assert(m.contains(m[j]));
                }
                if visible_row_keys::<R>(s, search_needle(self.search_text@)).contains(k) {
                    let j = choose|j: int| 0 <= j < m.len() && R::key_of(s[#[trigger] m[j]]) == k;
                    assert(target_keys(targets@)[j] == k);
                }
            }
            assert(target_keys(targets@).to_set() =~= visible_row_keys::<R>(s, search_needle(self.search_text@)));
        }
        self.selected_rows.retain_in(&keys);
        proof {
            assert(self.selected_rows@.subset_of(row_keys::<R>(views(self.rows@))));
        }
    }
}

/// The keys of the rows that a search shows.
pub open spec fn visible_row_keys<R: PanelRow>(s: Seq<R::V>, needle: Seq<char>) -> Set<Seq<char>> {
    Set::new(|k: Seq<char>| exists|j: int| 0 <= j < matching_indices::<R>(s, needle).len()
        && R::key_of(s[#[trigger] matching_indices::<R>(s, needle)[j]]) == k)
}

proof fn lemma_matching_indices_bounds<R: PanelRow>(s: Seq<R::V>, needle: Seq<char>)
    ensures
        forall|j: int| 0 <= j < matching_indices::<R>(s, needle).len() ==> 0 <= #[trigger] matching_indices::<R>(s, needle)[j] < s.len(),
    decreases s.len(),
{
    if s.len() > 0 {
        let rest = matching_indices::<R>(s.drop_last(), needle);
        lemma_matching_indices_bounds::<R>(s.drop_last(), needle);
        if R::matches_needle(s.last(), needle) {
            assert forall|j: int| 0 <= j < rest.len() + 1 implies 0 <= #[trigger] rest.push(s.len() - 1)[j] < s.len() by {
                if j < rest.len() {
                    assert(rest.push(s.len() - 1)[j] == rest[j]);
                }
            }
        }
    }
}

/// The indices of the rows a search text matches, in row order.
pub open spec fn matching_indices<R: PanelRow>(rows: Seq<R::V>, needle: Seq<char>) -> Seq<int>
    decreases rows.len(),
{
    if rows.len() == 0 {
        Seq::empty()
    } else {
        let rest = matching_indices::<R>(rows.drop_last(), needle);
        if R::matches_needle(rows.last(), needle) {
            rest.push(rows.len() - 1)
        } else {
            rest
        }
    }
}

/// A search with nothing to look for (a blank search text) shows every
/// row, in row order.
pub proof fn law_empty_search_shows_every_row<R: PanelRow>(rows: Seq<R::V>, needle: Seq<char>)
    requires
        needle.len() == 0,
    ensures
        matching_indices::<R>(rows, needle) == Seq::new(rows.len(), |i: int| i),
    decreases rows.len(),
{
    assert(needle =~= Seq::<char>::empty());
    if rows.len() > 0 {
        law_empty_search_shows_every_row::<R>(rows.drop_last(), needle);
        R::lemma_empty_needle_matches(rows.last());
    }
    assert(matching_indices::<R>(rows, needle) =~= Seq::new(rows.len(), |i: int| i));
}

/// The search result lists the rows that the search matches, each once,
/// in row order: its indices are strictly increasing and in range, and an
/// index is in it exactly when its row matches.
pub proof fn law_matching_indices_are_the_matching_rows<R: PanelRow>(rows: Seq<R::V>, needle: Seq<char>)
    ensures
        forall|a: int, b: int| 0 <= a < b < matching_indices::<R>(rows, needle).len()
            ==> #[trigger] matching_indices::<R>(rows, needle)[a] < #[trigger] matching_indices::<R>(rows, needle)[b],
        forall|a: int| 0 <= a < matching_indices::<R>(rows, needle).len()
            ==> 0 <= #[trigger] matching_indices::<R>(rows, needle)[a] < rows.len(),
        forall|i: int| 0 <= i < rows.len() ==> (#[trigger] matching_indices::<R>(rows, needle).contains(i)
            <==> R::matches_needle(rows[i], needle)),
    decreases rows.len(),
{
    if rows.len() > 0 {
        let init = rows.drop_last();
        let rest = matching_indices::<R>(init, needle);
        law_matching_indices_are_the_matching_rows::<R>(init, needle);
        let m = matching_indices::<R>(rows, needle);
        let n = rows.len() - 1;
        assert forall|i: int| 0 <= i < rows.len() implies (#[trigger] m.contains(i) <==> R::matches_needle(rows[i], needle)) by {
            if i < n {
                assert(init[i] == rows[i]);
                if m.contains(i) {
                    let a = choose|a: int| 0 <= a < m.len() && m[a] == i;
                    if a < rest.len() {
                        assert(rest[a] == i);
                    }
                }
                if rest.contains(i) {
                    let a = choose|a: int| 0 <= a < rest.len() && rest[a] == i;
                    assert(m[a] == i);
                }
            } else {
                if R::matches_needle(rows.last(), needle) {
                    assert(m[rest.len() as int] == n);
                } else if m.contains(i) {
                    let a = choose|a: int| 0 <= a < m.len() && m[a] == i;
                    assert(rest[a] < init.len());
                }
            }
        }
    }
}

/// The indices of the rows that a search text matches (case-insensitive,
/// surrounding white space ignored; an empty search matches every row).
pub fn filter_rows<R: PanelRow>(rows: &[R], search_text: &str) -> (r: Vec<usize>)
    ensures
        r@.len() == matching_indices::<R>(views(rows@), search_needle(search_text@)).len(),
        forall|i: int| 0 <= i < r@.len() ==> r@[i] as int == matching_indices::<R>(views(rows@), search_needle(search_text@))[i],
{
    let needle = needle_of(search_text);
    let ghost vs = views(rows@);
    let mut out: Vec<usize> = Vec::new();
    let mut i: usize = 0;
    while i < rows.len()
        invariant
            i <= rows@.len(),
            vs == views(rows@),
            out@.len() == matching_indices::<R>(vs.take(i as int), needle@).len(),
            forall|j: int| 0 <= j < out@.len() ==> out@[j] as int == matching_indices::<R>(vs.take(i as int), needle@)[j],
        decreases rows@.len() - i,
    {
        assert(vs.take(i + 1).drop_last() =~= vs.take(i as int));
        assert(vs.take(i + 1).last() == rows@[i as int]@);
        if rows[i].matches(needle.as_str()) {
            out.push(i);
        }
        i = i + 1;
    }
    assert(vs.take(i as int) =~= vs);
    out
}


// ---------------------------------------------------------------------------
// Laws of the panel state
// ---------------------------------------------------------------------------

/// An answer to any row request but the current one changes nothing: when
/// two requests were sent, the first one's answer is dropped.
pub proof fn law_stale_row_answers_change_nothing<R: PanelRow>(
    old: PanelState<R>,
    new: PanelState<R>,
    request_id: u64,
    result: Result<Seq<R::V>, String>,
)
    requires
        old.row_request_id != Some(request_id),
        PanelState::<R>::rows_load_post(old, new, request_id, result),
    ensures
        new == old,
{
}

/// A watch answer to any watch but the current one changes nothing.
pub proof fn law_stale_watch_answers_change_nothing<R: PanelRow>(
    old: PanelState<R>,
    new: PanelState<R>,
    request_id: u64,
    result: Result<Option<Seq<R::V>>, String>,
)
    requires
        old.row_watch_request_id != Some(request_id),
        PanelState::<R>::rows_watch_post(old, new, request_id, result),
    ensures
        new == old,
{
}

/// A result of any action but the panel's current one changes nothing.
pub proof fn law_stale_action_results_change_nothing<R: PanelRow>(
    old: PanelState<R>,
    new: PanelState<R>,
    request_id: u64,
    effect: ActionEffect<R::V>,
)
    requires
        old.action_request_id != Some(request_id),
        PanelState::<R>::action_post(old, new, request_id, effect),
    ensures
        new == old,
{
}

/// The answer to the current row request is what the table shows: its rows,
/// loaded, with the request done and the selection kept to their keys.
pub proof fn law_current_answer_is_shown<R: PanelRow>(
    old: PanelState<R>,
    new: PanelState<R>,
    request_id: u64,
    rows: Seq<R::V>,
)
    requires
        old.row_request_id == Some(request_id),
        PanelState::<R>::rows_load_post(old, new, request_id, Ok(rows)),
    ensures
        views(new.rows@) == rows,
        new.row_status == LoadStatus::Loaded,
        new.row_request_id is None,
        new.selected_rows@.subset_of(row_keys::<R>(rows)),
{
}

/// Namespace answers are taken whoever asked: the namespace list becomes
/// the answer's names whatever request it answers.
pub proof fn law_namespace_answers_always_taken<R: PanelRow>(
    old: PanelState<R>,
    new: PanelState<R>,
    request_id: u64,
    names: Seq<Seq<char>>,
)
    requires
        PanelState::<R>::namespace_load_post(old, new, request_id, Ok(names)),
    ensures
        texts_view(new.namespaces@) == names,
        new.namespace_status == LoadStatus::Loaded,
        new.rows == old.rows,
        new.selected_rows == old.selected_rows,
{
}

/// After an object is applied its row is in the table: the table holds
/// each earlier key and the new row's key, and the row itself.
pub proof fn law_applied_row_is_shown<R: PanelRow>(s: Seq<R::V>, row: R::V)
    ensures
        upsert_views::<R>(s, row).contains(row),
        row_keys::<R>(upsert_views::<R>(s, row)) == row_keys::<R>(s).insert(R::key_of(row)),
        upsert_views::<R>(s, row).len() <= s.len() + 1,
{
    let replaced = match key_index::<R>(s, R::key_of(row)) {
        Some(i) => s.update(i, row),
        None => s.push(row),
    };
    lemma_key_index::<R>(s, R::key_of(row));
    lemma_sort_views_permutes::<R>(replaced);
    match key_index::<R>(s, R::key_of(row)) {
        Some(i) => assert(replaced[i] == row),
        None => assert(replaced[s.len() as int] == row),
    }
    lemma_same_multiset_contains(sort_views::<R>(replaced), replaced, row);
    lemma_upsert_keeps_keys::<R>(s, row);
    vstd::seq_lib::to_multiset_len(sort_views::<R>(replaced));
    vstd::seq_lib::to_multiset_len(replaced);
}

/// No two rows share a key.
pub open spec fn keys_distinct<R: TableRow>(s: Seq<R::V>) -> bool {
    forall|i: int, j: int| 0 <= i < j < s.len() ==> R::key_of(#[trigger] s[i]) != R::key_of(#[trigger] s[j])
}

proof fn lemma_insert_keeps_keys_distinct<R: TableRow>(s: Seq<R::V>, q: int, x: R::V)
    requires
        0 <= q <= s.len(),
        keys_distinct::<R>(s),
        !row_keys::<R>(s).contains(R::key_of(x)),
    ensures
        keys_distinct::<R>(s.insert(q, x)),
{
    let t = s.insert(q, x);
    lemma_keys_contains::<R>(s, R::key_of(x));
    assert forall|i: int, j: int| 0 <= i < j < t.len() implies R::key_of(#[trigger] t[i]) != R::key_of(#[trigger] t[j]) by {
        if j < q {
            assert(t[i] == s[i] && t[j] == s[j]);
        } else if j == q {
            assert(t[i] == s[i] && t[j] == x);
        } else if i == q {
            assert(t[i] == x && t[j] == s[j - 1]);
        } else if i < q {
            assert(t[i] == s[i] && t[j] == s[j - 1]);
        } else {
            assert(t[i] == s[i - 1] && t[j] == s[j - 1]);
        }
    }
}

proof fn lemma_sort_keeps_keys_distinct<R: TableRow>(s: Seq<R::V>)
    requires
        keys_distinct::<R>(s),
    ensures
        keys_distinct::<R>(sort_views::<R>(s)),
    decreases s.len(),
{
    if s.len() > 0 {
        let init = s.drop_last();
        assert(keys_distinct::<R>(init)) by {
            assert forall|i: int, j: int| 0 <= i < j < init.len() implies R::key_of(#[trigger] init[i]) != R::key_of(#[trigger] init[j]) by {
                assert(init[i] == s[i] && init[j] == s[j]);
            }
        }
        lemma_sort_keeps_keys_distinct::<R>(init);
        let rest = sort_views::<R>(init);
        lemma_sort_views_permutes::<R>(init);
        lemma_permuted_keys::<R>(rest, init);
        lemma_keys_contains::<R>(init, R::key_of(s.last()));
        if row_keys::<R>(init).contains(R::key_of(s.last())) {
            let i = choose|i: int| 0 <= i < init.len() && R::key_of(#[trigger] init[i]) == R::key_of(s.last());
            assert(init[i] == s[i]);
        }
        crate::resource_panel::table::lemma_insert_pos_bounds::<R>(rest, s.last());
        lemma_insert_keeps_keys_distinct::<R>(rest, insert_pos::<R>(rest, s.last()), s.last());
    }
}

/// An upsert into a table whose keys are distinct, for a row order that
/// is strict on the table's rows and the new one: the rows come out in table order with distinct keys, the new
/// row is the one row with its key, every row with another key stays, and
/// the table grows by one row exactly when the key is new.
pub proof fn law_upsert_keeps_table<R: PanelRow>(s: Seq<R::V>, row: R::V, p: spec_fn(R::V) -> bool)
    requires
        strict_order_on::<R>(p),
        forall|i: int| 0 <= i < s.len() ==> p(#[trigger] s[i]),
        p(row),
        keys_distinct::<R>(s),
    ensures
        in_table_order::<R>(upsert_views::<R>(s, row)),
        keys_distinct::<R>(upsert_views::<R>(s, row)),
        upsert_views::<R>(s, row).contains(row),
        forall|i: int| 0 <= i < upsert_views::<R>(s, row).len() && R::key_of(#[trigger] upsert_views::<R>(s, row)[i]) == R::key_of(row)
            ==> upsert_views::<R>(s, row)[i] == row,
        forall|v: R::V| #[trigger] s.contains(v) && R::key_of(v) != R::key_of(row) ==> upsert_views::<R>(s, row).contains(v),
        upsert_views::<R>(s, row).len() == s.len() + if row_keys::<R>(s).contains(R::key_of(row)) { 0int } else { 1int },
{
    let k = R::key_of(row);
    let replaced = match key_index::<R>(s, k) {
        Some(i) => s.update(i, row),
        None => s.push(row),
    };
    let u = upsert_views::<R>(s, row);
    lemma_key_index::<R>(s, k);
    lemma_keys_contains::<R>(s, k);
    lemma_sort_views_permutes::<R>(replaced);
    assert forall|i: int| 0 <= i < replaced.len() implies p(#[trigger] replaced[i]) by {
        if i < s.len() && replaced[i] != row {
            assert(replaced[i] == s[i]);
        }
    }
    lemma_sort_views_in_order::<R>(replaced, p);
    vstd::seq_lib::to_multiset_len(u);
    vstd::seq_lib::to_multiset_len(replaced);
    assert(keys_distinct::<R>(replaced)) by {
        match key_index::<R>(s, k) {
            Some(m) => {
                assert forall|i: int, j: int| 0 <= i < j < replaced.len() implies R::key_of(#[trigger] replaced[i]) != R::key_of(#[trigger] replaced[j]) by {
                    assert(R::key_of(replaced[i]) == R::key_of(s[i]));
                    assert(R::key_of(replaced[j]) == R::key_of(s[j]));
                }
            },
            None => {
                assert forall|i: int, j: int| 0 <= i < j < replaced.len() implies R::key_of(#[trigger] replaced[i]) != R::key_of(#[trigger] replaced[j]) by {
                    assert(replaced[i] == s[i]);
                    if j < s.len() {
                        assert(replaced[j] == s[j]);
                    }
                }
            },
        }
    }
    lemma_sort_keeps_keys_distinct::<R>(replaced);
    law_applied_row_is_shown::<R>(s, row);
    assert forall|v: R::V| #[trigger] s.contains(v) && R::key_of(v) != k implies u.contains(v) by {
        let j = choose|j: int| 0 <= j < s.len() && s[j] == v;
        match key_index::<R>(s, k) {
            Some(m) => {
                assert(j != m);
                assert(replaced[j] == v);
            },
            None => {
                assert(replaced[j] == v);
            },
        }
        lemma_same_multiset_contains(u, replaced, v);
    }
    assert forall|i: int| 0 <= i < u.len() && R::key_of(#[trigger] u[i]) == k implies u[i] == row by {
        let j = choose|j: int| 0 <= j < u.len() && u[j] == row;
        if i < j {
            assert(R::key_of(u[i]) != R::key_of(u[j]));
        } else if j < i {
            assert(R::key_of(u[j]) != R::key_of(u[i]));
        }
    }
}

/// After a delete no row with the deleted key is left, and every other row
/// stays, in its order.
pub proof fn law_deleted_key_is_gone<R: PanelRow>(s: Seq<R::V>, key: Seq<char>)
    ensures
        forall|i: int| 0 <= i < without_key::<R>(s, key).len() ==> R::key_of(#[trigger] without_key::<R>(s, key)[i]) != key,
        without_key::<R>(s, key) == s.filter(|v: R::V| R::key_of(v) != key),
    decreases s.len(),
{
    reveal(Seq::filter);
    let pred = |v: R::V| R::key_of(v) != key;
    if s.len() > 0 {
        law_deleted_key_is_gone::<R>(s.drop_last(), key);
        let rest = without_key::<R>(s.drop_last(), key);
        assert(rest == s.drop_last().filter(pred));
        assert(s.filter(pred) == if pred(s.last()) {
            s.drop_last().filter(pred).push(s.last())
        } else {
            s.drop_last().filter(pred)
        });
        if R::key_of(s.last()) != key {
            assert forall|i: int| 0 <= i < rest.push(s.last()).len() implies R::key_of(#[trigger] rest.push(s.last())[i]) != key by {
                if i < rest.len() {
                    assert(rest.push(s.last())[i] == rest[i]);
                }
            }
        }
    } else {
        assert(s.filter(pred) =~= Seq::<R::V>::empty());
    }
}
} // verus!
