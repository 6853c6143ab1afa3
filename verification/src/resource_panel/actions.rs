//! What the create, delete and batch delete dialogs of a panel do when they
//! are opened, cancelled or confirmed: a confirmed dialog sends an action
//! request that becomes the panel's current action.
use vstd::prelude::*;
use crate::json::JsonValue;
use crate::resource_panel::components::{
    GenericBatchDeleteDialog, GenericCreateDialog, ResourceMetadata, apply_namespace, apply_resource_request,
    batch_delete_resource_request, delete_resource_request, delete_target_view, delete_targets_view, metadata_text,
    name_required, not_blank, parse_resource_apply, selected_targets_spec,
};
use crate::resource_panel::state::{ActionEffect, PanelRow, PanelState, row_targets};
use crate::resource_panel::table::views;
use crate::yaml::{parse_yaml_document, parsed_from, yaml_document};
use crate::resource_panel::{ClusterId, ResourceActionKind, ResourceActionRequest, ResourceDeleteTarget, copy_opt_text, opt_view};

verus! {

/// A copy of a delete target.
fn copy_target(t: &ResourceDeleteTarget) -> (r: ResourceDeleteTarget)
    ensures
        delete_target_view(r) == delete_target_view(*t),
{
    ResourceDeleteTarget { namespace: copy_opt_text(&t.namespace), name: t.name.clone() }
}

/// A copy of a list of delete targets.
fn copy_targets(v: &Vec<ResourceDeleteTarget>) -> (r: Vec<ResourceDeleteTarget>)
    ensures
        delete_targets_view(r@) == delete_targets_view(v@),
{
    let mut out: Vec<ResourceDeleteTarget> = Vec::new();
    let mut i: usize = 0;
    while i < v.len()
        invariant
            i <= v@.len(),
            delete_targets_view(out@) == delete_targets_view(v@.take(i as int)),
        decreases v@.len() - i,
    {
        let ghost before = out@;
        let t = copy_target(&v[i]);
        out.push(t);
        assert(delete_targets_view(out@) =~= delete_targets_view(before).push(delete_target_view(v@[i as int])));
        assert(v@.take(i + 1) =~= v@.take(i as int).push(v@[i as int]));
        assert(delete_targets_view(v@.take(i + 1)) =~= delete_targets_view(v@.take(i as int)).push(
            delete_target_view(v@[i as int]),
        ));
        i = i + 1;
    }
    assert(v@.take(i as int) =~= v@);
    out
}

impl<R: PanelRow> PanelState<R> {
    /// Only the dialogs and the action error may differ.
    pub open spec fn only_dialogs_differ(&self, other: &Self) -> bool {
        &&& self.same_requests(other)
        &&& self.same_rows(other)
        &&& self.same_namespaces(other)
        &&& self.same_view(other)
    }

    /// Opens the create dialog on the given YAML and clears the action
    /// error.
    pub fn open_create_dialog(&mut self, yaml: String)
        requires
            old(self).wf(),
        ensures
            final(self).wf(),
            final(self).only_dialogs_differ(old(self)),
            final(self).create_dialog == Some((GenericCreateDialog { yaml, parse_error: None })),
            final(self).action_error is None,
            final(self).edit_dialog == old(self).edit_dialog,
            final(self).delete_dialog == old(self).delete_dialog,
            final(self).batch_delete_dialog == old(self).batch_delete_dialog,
    {
        self.create_dialog = Some(GenericCreateDialog { yaml, parse_error: None });
        self.action_error = None;
    }

    /// Opens the batch delete dialog for the selected rows and clears the
    /// action error; nothing happens when no row is selected.
    pub fn open_batch_delete_dialog(&mut self)
        requires
            old(self).wf(),
        ensures
            final(self).wf(),
            final(self).only_dialogs_differ(old(self)),
            ({
                let targets = selected_targets_spec(row_targets::<R>(views(old(self).rows@)), old(self).selected_rows@);
                if targets.len() > 0 {
                    &&& final(self).batch_delete_dialog matches Some(d) && delete_targets_view(d.targets@) == targets
                    &&& final(self).action_error is None
                    &&& final(self).edit_dialog == old(self).edit_dialog
                    &&& final(self).create_dialog == old(self).create_dialog
                    &&& final(self).delete_dialog == old(self).delete_dialog
                } else {
                    final(self).same_dialogs(old(self))
                }
            }),
    {
        let targets = self.selected_delete_targets();
        if targets.len() > 0 {
            self.batch_delete_dialog = Some(GenericBatchDeleteDialog { targets });
            self.action_error = None;
        }
    }

    /// Closes the create dialog and clears the action error.
    pub fn cancel_create(&mut self)
        requires
            old(self).wf(),
        ensures
            final(self).wf(),
            final(self).only_dialogs_differ(old(self)),
            final(self).create_dialog is None,
            final(self).action_error is None,
            final(self).edit_dialog == old(self).edit_dialog,
            final(self).delete_dialog == old(self).delete_dialog,
            final(self).batch_delete_dialog == old(self).batch_delete_dialog,
    {
        self.create_dialog = None;
        self.action_error = None;
    }

    /// Closes the edit dialog and clears the action error.
    pub fn cancel_edit(&mut self)
        requires
            old(self).wf(),
        ensures
            final(self).wf(),
            final(self).only_dialogs_differ(old(self)),
            final(self).edit_dialog is None,
            final(self).action_error is None,
            final(self).create_dialog == old(self).create_dialog,
            final(self).delete_dialog == old(self).delete_dialog,
            final(self).batch_delete_dialog == old(self).batch_delete_dialog,
    {
        self.edit_dialog = None;
        self.action_error = None;
    }

    /// Closes the delete dialog and clears the action error.
    pub fn cancel_delete(&mut self)
        requires
            old(self).wf(),
        ensures
            final(self).wf(),
            final(self).only_dialogs_differ(old(self)),
            final(self).delete_dialog is None,
            final(self).action_error is None,
            final(self).create_dialog == old(self).create_dialog,
            final(self).edit_dialog == old(self).edit_dialog,
            final(self).batch_delete_dialog == old(self).batch_delete_dialog,
    {
        self.delete_dialog = None;
        self.action_error = None;
    }

    /// Closes the batch delete dialog and clears the action error.
    pub fn cancel_batch_delete(&mut self)
        requires
            old(self).wf(),
        ensures
            final(self).wf(),
            final(self).only_dialogs_differ(old(self)),
            final(self).batch_delete_dialog is None,
            final(self).action_error is None,
            final(self).create_dialog == old(self).create_dialog,
            final(self).edit_dialog == old(self).edit_dialog,
            final(self).delete_dialog == old(self).delete_dialog,
    {
        self.batch_delete_dialog = None;
        self.action_error = None;
    }

    /// What confirming the create dialog on a parsed manifest does.
    pub open spec fn create_submitted(
        old: Self,
        new: Self,
        cluster_id: ClusterId,
        metadata: ResourceMetadata,
        parsed: Result<JsonValue, String>,
        r: Option<ResourceActionRequest>,
    ) -> bool {
        &&& new.same_rows(&old)
        &&& new.same_namespaces(&old)
        &&& new.same_view(&old)
        &&& new.edit_dialog == old.edit_dialog
        &&& new.delete_dialog == old.delete_dialog
        &&& new.batch_delete_dialog == old.batch_delete_dialog
        &&& new.action_error == old.action_error
        &&& new.namespace_request_id == old.namespace_request_id
        &&& new.row_request_id == old.row_request_id
        &&& new.namespace_watch_request_id == old.namespace_watch_request_id
        &&& new.row_watch_request_id == old.row_watch_request_id
        &&& old.create_dialog is None ==> r is None && new == old
        &&& old.create_dialog matches Some(d) ==> match parsed {
            Err(e) => {
                &&& r is None
                &&& new.create_dialog == Some((GenericCreateDialog { yaml: d.yaml, parse_error: Some(e) }))
                &&& new.same_requests(&old)
            },
            Ok(manifest) => match metadata_text(manifest, "name"@) {
                Some(name) if not_blank(name) => {
                    &&& r is Some
                    &&& r->0.request_id == old.next_request_id + 1
                    &&& r->0.cluster_id == cluster_id
                    &&& r->0.kind matches ResourceActionKind::ApplyResource { resource, namespace, name: n, manifest: m }
                        && resource == metadata.resource && n@ == name && m == manifest
                        && opt_view(namespace) == apply_namespace(manifest, metadata.namespaced, opt_view(old.namespace_filter))
                    &&& new.action_request_id == Some(r->0.request_id)
                    &&& new.next_request_id == r->0.request_id
                    &&& new.create_dialog == Some((GenericCreateDialog { yaml: d.yaml, parse_error: None }))
                },
                _ => {
                    &&& r is None
                    &&& new.create_dialog is Some
                    &&& new.create_dialog->0.yaml == d.yaml
                    &&& new.create_dialog->0.parse_error matches Some(e) && e@ == name_required()
                    &&& new.same_requests(&old)
                },
            },
        }
    }

    /// Confirms the create dialog with its parsed YAML.  A manifest that
    /// names its object is sent as an apply request, in the manifest's own
    /// namespace or the panel's selected one for namespaced kinds, and the
    /// request becomes the panel's current action; otherwise the dialog
    /// shows why.  Nothing happens without an open create dialog.
    pub fn submit_create(&mut self, cluster_id: ClusterId, metadata: ResourceMetadata, parsed: Result<JsonValue, String>)
        -> (r: Option<ResourceActionRequest>)
        requires
            old(self).wf(),
            old(self).next_request_id < u64::MAX,
        ensures
            final(self).wf(),
            Self::create_submitted(*old(self), *final(self), cluster_id, metadata, parsed, r),
    {
        let yaml = match &self.create_dialog {
            Some(d) => d.yaml.clone(),
            None => return None,
        };
        let default = match &self.namespace_filter {
            Some(ns) => Some(ns.as_str()),
            None => None,
        };
        match parse_resource_apply(parsed, metadata.namespaced, default) {
            Err(e) => {
                self.create_dialog = Some(GenericCreateDialog { yaml, parse_error: Some(e) });
                None
            },
            Ok(p) => {
                self.create_dialog = Some(GenericCreateDialog { yaml, parse_error: None });
                let id = self.allocate_request_id();
                let request = apply_resource_request(id, cluster_id, metadata, p);
                self.action_request_id = Some(id);
                Some(request)
            },
        }
    }

    /// Confirms the create dialog on the YAML it holds: the text is parsed
    /// as a YAML document (`yaml_document`), and the parse, or the parser's
    /// message, is confirmed as `submit_create` confirms it.  Nothing
    /// happens without an open create dialog.
    pub fn submit_create_yaml(&mut self, cluster_id: ClusterId, metadata: ResourceMetadata) -> (r: Option<ResourceActionRequest>)
        requires
            old(self).wf(),
            old(self).next_request_id < u64::MAX,
        ensures
            final(self).wf(),
            old(self).create_dialog is None ==> r is None && *final(self) == *old(self),
            old(self).create_dialog matches Some(d) ==> exists|parsed: Result<JsonValue, String>|
                #[trigger] parsed_from(yaml_document(d.yaml@), parsed)
                && Self::create_submitted(*old(self), *final(self), cluster_id, metadata, parsed, r),
    {
        let parsed = match &self.create_dialog {
            Some(d) => parse_yaml_document(d.yaml.as_str()),
            None => return None,
        };
        let r = self.submit_create(cluster_id, metadata, parsed);
        assert(parsed_from(yaml_document(old(self).create_dialog->0.yaml@), parsed));
        r
    }

    /// Confirms the delete dialog: a delete request for its object becomes
    /// the panel's current action; the dialog stays open until the answer.
    /// Nothing happens without an open delete dialog.
    pub fn submit_delete(&mut self, cluster_id: ClusterId, metadata: ResourceMetadata) -> (r: Option<ResourceActionRequest>)
        requires
            old(self).wf(),
            old(self).next_request_id < u64::MAX,
        ensures
            final(self).wf(),
            final(self).same_rows(old(self)),
            final(self).same_namespaces(old(self)),
            final(self).same_view(old(self)),
            final(self).same_dialogs(old(self)),
            final(self).namespace_request_id == old(self).namespace_request_id,
            final(self).row_request_id == old(self).row_request_id,
            final(self).namespace_watch_request_id == old(self).namespace_watch_request_id,
            final(self).row_watch_request_id == old(self).row_watch_request_id,
            old(self).delete_dialog is None ==> r is None && *final(self) == *old(self),
            old(self).delete_dialog matches Some(d) ==> {
                &&& r is Some
                &&& r->0.request_id == old(self).next_request_id + 1
                &&& r->0.cluster_id == cluster_id
                &&& r->0.kind matches ResourceActionKind::DeleteResource { resource, namespace, name }
                    && resource == metadata.resource
                    && delete_target_view((ResourceDeleteTarget { namespace, name })) == delete_target_view(d.target)
                &&& final(self).action_request_id == Some(r->0.request_id)
                &&& final(self).next_request_id == r->0.request_id
            },
    {
        let target = match &self.delete_dialog {
            Some(d) => copy_target(&d.target),
            None => return None,
        };
        let id = self.allocate_request_id();
        let request = delete_resource_request(id, cluster_id, metadata, target);
        self.action_request_id = Some(id);
        Some(request)
    }

    /// Confirms the batch delete dialog: a request deleting its objects
    /// becomes the panel's current action; the dialog stays open until the
    /// answer.  Nothing happens without an open batch delete dialog.
    pub fn submit_batch_delete(&mut self, cluster_id: ClusterId, metadata: ResourceMetadata) -> (r: Option<ResourceActionRequest>)
        requires
            old(self).wf(),
            old(self).next_request_id < u64::MAX,
        ensures
            final(self).wf(),
            final(self).same_rows(old(self)),
            final(self).same_namespaces(old(self)),
            final(self).same_view(old(self)),
            final(self).same_dialogs(old(self)),
            final(self).namespace_request_id == old(self).namespace_request_id,
            final(self).row_request_id == old(self).row_request_id,
            final(self).namespace_watch_request_id == old(self).namespace_watch_request_id,
            final(self).row_watch_request_id == old(self).row_watch_request_id,
            old(self).batch_delete_dialog is None ==> r is None && *final(self) == *old(self),
            old(self).batch_delete_dialog matches Some(d) ==> {
                &&& r is Some
                &&& r->0.request_id == old(self).next_request_id + 1
                &&& r->0.cluster_id == cluster_id
                &&& r->0.kind matches ResourceActionKind::BatchDeleteResources { resource, targets }
                    && resource == metadata.resource && delete_targets_view(targets@) == delete_targets_view(d.targets@)
                &&& final(self).action_request_id == Some(r->0.request_id)
                &&& final(self).next_request_id == r->0.request_id
            },
    {
        let targets = match &self.batch_delete_dialog {
            Some(d) => copy_targets(&d.targets),
            None => return None,
        };
        let id = self.allocate_request_id();
        let request = batch_delete_resource_request(id, cluster_id, metadata, targets);
        self.action_request_id = Some(id);
        Some(request)
    }
}


/// Once a dialog has sent an action, the answer to it is taken and ends
/// the action, while an answer to any earlier action changes nothing.
pub proof fn law_only_the_latest_action_is_answered<R: PanelRow>(
    sent: PanelState<R>,
    after: PanelState<R>,
    request_id: u64,
    earlier: u64,
    effect: ActionEffect<R::V>,
)
    requires
        sent.action_request_id == Some(request_id),
        earlier < request_id,
    ensures
        PanelState::<R>::action_post(sent, after, request_id, effect) ==> after.action_request_id is None,
        PanelState::<R>::action_post(sent, after, earlier, effect) ==> after == sent,
{
}
} // verus!
