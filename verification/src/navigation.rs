//! The selected cluster and each cluster's workspace: which resource tabs
//! are open in it and which resource was picked last.
use vstd::prelude::*;
use crate::keyed::{entry_position, entry_value, lemma_entry_at, lemma_push_entry, lemma_update_entry, recorded};
use crate::text::str_eq;

verus! {

/// A cluster's workspace: the resource tabs open in it, in the order they
/// were opened, and the resource picked last.
#[derive(Debug, PartialEq, Eq)]
pub struct ClusterWorkspace {
    pub open_tabs: Vec<String>,
    pub selected_resource: Option<String>,
}

/// The names of open tabs.
pub open spec fn tab_names(tabs: Seq<String>) -> Seq<Seq<char>> {
    tabs.map_values(|t: String| t@)
}

/// The workspace with `resource` picked and its tab open: an open tab
/// stays where it is, a new one comes last.
pub open spec fn opened(old_tabs: Seq<Seq<char>>, new: ClusterWorkspace, resource: Seq<char>) -> bool {
    &&& new.selected_resource matches Some(s) && s@ == resource
    &&& if old_tabs.contains(resource) {
        tab_names(new.open_tabs@) == old_tabs
    } else {
        tab_names(new.open_tabs@) == old_tabs.push(resource)
    }
}

/// The open tabs of a workspace, none without one.
pub open spec fn workspace_tabs(w: Option<ClusterWorkspace>) -> Seq<Seq<char>> {
    match w {
        Some(w) => tab_names(w.open_tabs@),
        None => Seq::empty(),
    }
}

impl ClusterWorkspace {
    /// A workspace without tabs.
    pub fn new() -> (r: ClusterWorkspace)
        ensures
            r.open_tabs@.len() == 0,
            r.selected_resource is None,
    {
        ClusterWorkspace { open_tabs: Vec::new(), selected_resource: None }
    }

    /// Whether the resource's tab is open.
    pub fn has_tab(&self, resource: &str) -> (r: bool)
        ensures
            r == tab_names(self.open_tabs@).contains(resource@),
    {
        let mut i: usize = 0;
        while i < self.open_tabs.len()
            invariant
                i <= self.open_tabs@.len(),
                forall|j: int| 0 <= j < i ==> self.open_tabs@[j]@ != resource@,
            decreases self.open_tabs@.len() - i,
        {
            if str_eq(self.open_tabs[i].as_str(), resource) {
                assert(tab_names(self.open_tabs@)[i as int] == resource@);
                return true;
            }
            i = i + 1;
        }
        assert(!tab_names(self.open_tabs@).contains(resource@)) by {
            if tab_names(self.open_tabs@).contains(resource@) {
                let j = choose|j: int| 0 <= j < tab_names(self.open_tabs@).len() && tab_names(self.open_tabs@)[j] == resource@;
                assert(self.open_tabs@[j]@ == resource@);
            }
        }
        false
    }

    /// Picks the resource and opens its tab unless it is open; the answer
    /// is whether a tab was added.
    pub fn open_resource(&mut self, resource: &str) -> (r: bool)
        ensures
            opened(tab_names(old(self).open_tabs@), *final(self), resource@),
            r == !tab_names(old(self).open_tabs@).contains(resource@),
    {
        let present = self.has_tab(resource);
        self.selected_resource = Some(resource.to_owned());
        if !present {
            let ghost before = self.open_tabs@;
            self.open_tabs.push(resource.to_owned());
            assert(tab_names(self.open_tabs@) =~= tab_names(before).push(resource@));
        }
        !present
    }
}

/// The selected cluster (its id and name) and the clusters' workspaces.
pub struct Navigation {
    pub selected_cluster: Option<(String, String)>,
    pub workspaces: Vec<(String, ClusterWorkspace)>,
}

/// The id of the selected cluster.
pub open spec fn selected_id(selected: Option<(String, String)>) -> Option<Seq<char>> {
    match selected {
        Some((id, _)) => Some(id@),
        None => None,
    }
}

impl Navigation {
    /// No cluster selected, no workspaces.
    pub fn new() -> (r: Navigation)
        ensures
            r.selected_cluster is None,
            forall|k: Seq<char>| #[trigger] entry_value(r.workspaces@, k) is None,
    {
        Navigation { selected_cluster: None, workspaces: Vec::new() }
    }

    /// The id of the selected cluster.
    pub fn selected_cluster_id(&self) -> (r: Option<&str>)
        ensures
            crate::json::opt_text(r) == selected_id(self.selected_cluster),
    {
        match &self.selected_cluster {
            Some(pair) => Some(pair.0.as_str()),
            None => None,
        }
    }

    /// The workspace of cluster `id`.
    pub fn workspace(&self, id: &str) -> (r: Option<&ClusterWorkspace>)
        ensures
            match r {
                Some(w) => entry_value(self.workspaces@, id@) == Some(*w),
                None => entry_value(self.workspaces@, id@) is None,
            },
    {
        match entry_position(&self.workspaces, id) {
            Some(i) => {
                proof {
                    lemma_entry_at(self.workspaces@, id@, i as int);
                }
                Some(&self.workspaces[i].1)
            },
            None => None,
        }
    }

    /// Selects a cluster and gives it a workspace unless it has one; the
    /// other workspaces stay as they are.
    pub fn select_cluster(&mut self, id: &str, name: &str)
        ensures
            final(self).selected_cluster matches Some((i, n)) && i@ == id@ && n@ == name@,
            entry_value(old(self).workspaces@, id@) is Some ==> final(self).workspaces == old(self).workspaces,
            entry_value(old(self).workspaces@, id@) is None ==> {
                &&& entry_value(final(self).workspaces@, id@) matches Some(w) && w.open_tabs@.len() == 0
                    && w.selected_resource is None
                &&& forall|k: Seq<char>| k != id@ ==> #[trigger] entry_value(final(self).workspaces@, k)
                    == entry_value(old(self).workspaces@, k)
            },
    {
        self.selected_cluster = Some((id.to_owned(), name.to_owned()));
        match entry_position(&self.workspaces, id) {
            Some(_) => {},
            None => {
                let ghost before = self.workspaces@;
                let key = id.to_owned();
                let ghost k = key;
                let ws = ClusterWorkspace::new();
                let ghost w = ws;
                self.workspaces.push((key, ws));
                proof {
                    lemma_push_entry(before, k, w);
                }
            },
        }
    }

    /// Opens a resource's tab in the selected cluster's workspace (made if
    /// missing) and picks it; nothing happens without a selected cluster.
    /// The answer is whether a tab was added.
    pub fn open_resource_tab(&mut self, resource: &str) -> (r: bool)
        ensures
            final(self).selected_cluster == old(self).selected_cluster,
            old(self).selected_cluster is None ==> !r && final(self).workspaces == old(self).workspaces,
            old(self).selected_cluster matches Some((id, _)) ==> {
                let before = workspace_tabs(entry_value(old(self).workspaces@, id@));
                &&& entry_value(final(self).workspaces@, id@) matches Some(after) && opened(before, after, resource@)
                &&& r == !before.contains(resource@)
                &&& forall|k: Seq<char>| k != id@ ==> #[trigger] entry_value(final(self).workspaces@, k)
                    == entry_value(old(self).workspaces@, k)
            },
    {
        let id = match &self.selected_cluster {
            Some(pair) => pair.0.clone(),
            None => return false,
        };
        let ghost before = self.workspaces@;
        match entry_position(&self.workspaces, id.as_str()) {
            Some(i) => {
                let (key, mut ws) = self.workspaces.remove(i);
                let ghost old_ws = before[i as int].1;
                proof {
                    lemma_entry_at(before, id@, i as int);
                }
                let added = ws.open_resource(resource);
                let ghost new_ws = ws;
                self.workspaces.insert(i, (key, ws));
                proof {
                    assert(self.workspaces@ =~= before.update(i as int, (before[i as int].0, new_ws)));
                    lemma_update_entry(before, id@, i as int, new_ws);
                }
                added
            },
            None => {
                let mut ws = ClusterWorkspace::new();
                proof {
                    assert(tab_names(ws.open_tabs@) =~= Seq::<Seq<char>>::empty());
                }
                let added = ws.open_resource(resource);
                let ghost new_ws = ws;
                let key = id.clone();
                let ghost k = key;
                self.workspaces.push((key, ws));
                proof {
                    lemma_push_entry(before, k, new_ws);
                }
                added
            },
        }
    }

    /// The resource picked last in the selected cluster's workspace.
    pub fn selected_workspace_resource(&self) -> (r: Option<&str>)
        ensures
            crate::json::opt_text(r) == match selected_id(self.selected_cluster) {
                Some(id) => match entry_value(self.workspaces@, id) {
                    Some(w) => match w.selected_resource {
                        Some(s) => Some(s@),
                        None => None,
                    },
                    None => None,
                },
                None => None,
            },
    {
        let id = match self.selected_cluster_id() {
            Some(id) => id,
            None => return None,
        };
        match self.workspace(id) {
            Some(w) => match &w.selected_resource {
                Some(s) => Some(s.as_str()),
                None => None,
            },
            None => None,
        }
    }
}

/// Opening a resource picks it and leaves its tab open exactly once: the
/// tabs that were open stay, in their order, and one tab is added only
/// when the resource had none; so opening it again changes no tab.
pub proof fn law_opening_keeps_one_tab_per_resource(old_tabs: Seq<Seq<char>>, new: ClusterWorkspace, resource: Seq<char>)
    requires
        opened(old_tabs, new, resource),
    ensures
        new.selected_resource matches Some(s) && s@ == resource,
        tab_names(new.open_tabs@).contains(resource),
        tab_names(new.open_tabs@).len() == old_tabs.len() + if old_tabs.contains(resource) { 0int } else { 1int },
        forall|i: int| 0 <= i < old_tabs.len() ==> tab_names(new.open_tabs@)[i] == old_tabs[i],
        old_tabs.no_duplicates() ==> tab_names(new.open_tabs@).no_duplicates(),
{
    let t = tab_names(new.open_tabs@);
    if !old_tabs.contains(resource) {
        assert(t[old_tabs.len() as int] == resource);
        if old_tabs.no_duplicates() {
            assert forall|i: int, j: int| 0 <= i < t.len() && 0 <= j < t.len() && i != j implies t[i] != t[j] by {
                if i == old_tabs.len() {
                    assert(old_tabs[j] == t[j]);
                } else if j == old_tabs.len() {
                    assert(old_tabs[i] == t[i]);
                }
            }
        }
    }
}
} // verus!
