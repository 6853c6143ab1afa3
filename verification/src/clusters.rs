//! The configured clusters: the list and its loading, the new cluster form's
//! submission, and each cluster's connection state.  The application starts
//! the requests these decide on and hands their answers back as events.
use vstd::prelude::*;
use crate::forms::NewClusterForm;
use crate::status::{ClusterConnectionInfo, ClusterConnectionState};
use crate::keyed::{entry_position, entry_value, lemma_entry_at, lemma_push_entry, lemma_update_entry, recorded};
use crate::text::{trim_seq, trim_str};

verus! {

/// A configured cluster as the cluster list shows it.
#[derive(Debug, PartialEq, Eq)]
pub struct ClusterSummary {
    pub id: String,
    pub name: String,
    pub context: String,
    pub current: bool,
}

/// A request to store a new cluster: its context name and kubeconfig.
#[derive(Debug, PartialEq, Eq)]
pub struct CreateClusterRequest {
    pub context: String,
    pub config: String,
}

/// An answer to one of the cluster requests.
#[derive(Debug, PartialEq, Eq)]
pub enum ClusterUiEvent {
    ClustersLoaded(Result<Vec<ClusterSummary>, String>),
    ClusterCreated(Result<ClusterSummary, String>),
    ClusterInitialized { cluster_id: String, result: Result<ClusterConnectionInfo, String> },
    ConfigFileLoaded(Result<String, String>),
}

impl ClusterConnectionState {
    /// A cluster is connected again unless it is connecting or connected.
    pub open spec fn needs_initialization(&self) -> bool {
        !(self is Initializing || self is Ready)
    }

    /// Whether selecting the cluster starts connecting to it.
    pub fn should_initialize(&self) -> (r: bool)
        ensures
            r == self.needs_initialization(),
    {
        match self {
            ClusterConnectionState::Initializing => false,
            ClusterConnectionState::Ready { .. } => false,
            _ => true,
        }
    }
}

/// The connection state of each cluster that has one.
pub struct ClusterConnections {
    pub entries: Vec<(String, ClusterConnectionState)>,
}

/// The state a cluster starts connecting from: its recorded one, or idle.
pub open spec fn current_state(entries: Seq<(String, ClusterConnectionState)>, id: Seq<char>) -> ClusterConnectionState {
    match entry_value(entries, id) {
        Some(s) => s,
        None => ClusterConnectionState::Idle,
    }
}

/// The error recorded when the cluster services are missing.
pub open spec fn services_missing() -> Seq<char> {
    "cluster services are not available"@
}

/// The error recorded when the runtime that runs requests is missing.
pub open spec fn runtime_missing() -> Seq<char> {
    "cluster runtime is not available"@
}

impl ClusterConnections {
    /// No cluster has a state.
    pub fn new() -> (r: ClusterConnections)
        ensures
            forall|k: Seq<char>| #[trigger] entry_value(r.entries@, k) is None,
    {
        ClusterConnections { entries: Vec::new() }
    }

    /// The state recorded for `id`.
    pub fn state_of(&self, id: &str) -> (r: Option<&ClusterConnectionState>)
        ensures
            match r {
                Some(s) => entry_value(self.entries@, id@) == Some(*s),
                None => entry_value(self.entries@, id@) is None,
            },
    {
        match entry_position(&self.entries, id) {
            Some(i) => {
                proof {
                    lemma_entry_at(self.entries@, id@, i as int);
                }
                Some(&self.entries[i].1)
            },
            None => None,
        }
    }

    /// Records `state` for `id`.
    pub fn set(&mut self, id: &str, state: ClusterConnectionState)
        ensures
            recorded(old(self).entries@, final(self).entries@, id@, state),
    {
        let ghost before = self.entries@;
        let ghost st = state;
        match entry_position(&self.entries, id) {
            Some(i) => {
                let key = self.entries[i].0.clone();
                self.entries.set(i, (key, state));
                proof {
                    assert(self.entries@ =~= before.update(i as int, (before[i as int].0, st)));
                    lemma_update_entry(before, id@, i as int, st);
                }
            },
            None => {
                let key = id.to_owned();
                let ghost k = key;
                self.entries.push((key, state));
                proof {
                    lemma_push_entry(before, k, st);
                }
            },
        }
    }

    /// A cluster was selected: it starts connecting unless it is connecting
    /// or connected already, and fails at once without the cluster services
    /// or the runtime that runs their requests.  The answer is whether the
    /// connection request is to be sent.
    pub fn begin_initialization(&mut self, id: &str, services_available: bool, runtime_available: bool) -> (r: bool)
        ensures
            ({
                let cur = current_state(old(self).entries@, id@);
                if !cur.needs_initialization() {
                    !r && recorded(old(self).entries@, final(self).entries@, id@, cur)
                } else if !services_available {
                    !r && exists|e: String| e@ == services_missing()
                        && recorded(old(self).entries@, final(self).entries@, id@, ClusterConnectionState::Failed { error: e })
                } else if !runtime_available {
                    !r && exists|e: String| e@ == runtime_missing()
                        && recorded(old(self).entries@, final(self).entries@, id@, ClusterConnectionState::Failed { error: e })
                } else {
                    r && recorded(old(self).entries@, final(self).entries@, id@, ClusterConnectionState::Initializing)
                }
            }),
    {
        let start = match self.state_of(id) {
            Some(s) => s.should_initialize(),
            None => true,
        };
        if !start {
            return false;
        }
        if !services_available {
            let e = "cluster services are not available".to_owned();
            proof {
                reveal_strlit("cluster services are not available");
            }
            let ghost eg = e;
            self.set(id, ClusterConnectionState::Failed { error: e });
            assert(eg@ == services_missing());
            return false;
        }
        if !runtime_available {
            let e = "cluster runtime is not available".to_owned();
            let ghost eg = e;
            self.set(id, ClusterConnectionState::Failed { error: e });
            assert(eg@ == runtime_missing());
            return false;
        }
        self.set(id, ClusterConnectionState::Initializing);
        true
    }

    /// The connection answer for a cluster: connected with what it reported,
    /// or failed with the error.
    pub fn apply_initialized(&mut self, id: &str, result: Result<ClusterConnectionInfo, String>)
        ensures
            match result {
                Ok(info) => recorded(old(self).entries@, final(self).entries@, id@, ClusterConnectionState::Ready { info }),
                Err(error) => recorded(old(self).entries@, final(self).entries@, id@, ClusterConnectionState::Failed { error }),
            },
    {
        let state = match result {
            Ok(info) => ClusterConnectionState::Ready { info },
            Err(error) => ClusterConnectionState::Failed { error },
        };
        self.set(id, state);
    }
}

/// The cluster list, its loading, the new cluster form, and the clusters'
/// connections.
pub struct ClusterRegistry {
    pub clusters: Vec<ClusterSummary>,
    pub load_in_flight: bool,
    pub load_error: Option<String>,
    pub new_cluster_form: NewClusterForm,
    pub connections: ClusterConnections,
}

/// The errors of a new cluster submission.
pub open spec fn storage_missing() -> Seq<char> {
    "cluster storage is not available"@
}

/// The error for an empty context name.
pub open spec fn context_required() -> Seq<char> {
    "context is required"@
}

/// The error for an empty kubeconfig.
pub open spec fn config_required() -> Seq<char> {
    "config is required"@
}

/// The error when no runtime can run the request.
pub open spec fn storage_runtime_missing() -> Seq<char> {
    "cluster storage runtime is not available"@
}

/// The form kept its inputs and visibility.
pub open spec fn same_inputs(a: NewClusterForm, b: NewClusterForm) -> bool {
    &&& a.open == b.open
    &&& a.context == b.context
    &&& a.config == b.config
}

/// The form records `error` and keeps its inputs.
pub open spec fn failed_with(old: NewClusterForm, new: NewClusterForm, error: Seq<char>) -> bool {
    &&& same_inputs(old, new)
    &&& new.error matches Some(e) && e@ == error
}

impl ClusterRegistry {
    /// No clusters, nothing loading, a cleared form, no connections.
    pub fn new() -> (r: ClusterRegistry)
        ensures
            r.clusters@.len() == 0,
            !r.load_in_flight,
            r.load_error is None,
            r.new_cluster_form.is_cleared(),
            forall|k: Seq<char>| #[trigger] entry_value(r.connections.entries@, k) is None,
    {
        ClusterRegistry {
            clusters: Vec::new(),
            load_in_flight: false,
            load_error: None,
            new_cluster_form: NewClusterForm::default(),
            connections: ClusterConnections::new(),
        }
    }

    /// Starts reloading the cluster list when the services and the runtime
    /// are there; the answer is whether the request is to be sent.
    pub fn begin_refresh(&mut self, services_available: bool, runtime_available: bool) -> (r: bool)
        ensures
            r == (services_available && runtime_available),
            r ==> final(self).load_in_flight && final(self).load_error is None,
            !r ==> final(self).load_in_flight == old(self).load_in_flight && final(self).load_error == old(self).load_error,
            final(self).clusters == old(self).clusters,
            final(self).new_cluster_form == old(self).new_cluster_form,
            final(self).connections == old(self).connections,
    {
        if !services_available || !runtime_available {
            return false;
        }
        self.load_in_flight = true;
        self.load_error = None;
        true
    }

    /// Checks the new cluster form for saving.  Without storage, with a
    /// blank context name or kubeconfig, or without a runtime the form
    /// records why and nothing is sent; otherwise the save starts (the list
    /// is marked as loading) and the request carries the trimmed context
    /// and the kubeconfig as typed.
    pub fn begin_submission(&mut self, storage_available: bool, runtime_available: bool) -> (r: Option<CreateClusterRequest>)
        ensures
            final(self).clusters == old(self).clusters,
            final(self).load_error == old(self).load_error,
            final(self).connections == old(self).connections,
            ({
                let form = old(self).new_cluster_form;
                let new_form = final(self).new_cluster_form;
                if !storage_available {
                    r is None && failed_with(form, new_form, storage_missing())
                        && final(self).load_in_flight == old(self).load_in_flight
                } else if trim_seq(form.context@).len() == 0 {
                    r is None && failed_with(form, new_form, context_required())
                        && final(self).load_in_flight == old(self).load_in_flight
                } else if trim_seq(form.config@).len() == 0 {
                    r is None && failed_with(form, new_form, config_required())
                        && final(self).load_in_flight == old(self).load_in_flight
                } else if !runtime_available {
                    r is None && failed_with(form, new_form, storage_runtime_missing())
                        && final(self).load_in_flight == old(self).load_in_flight
                } else {
                    &&& r matches Some(req) && req.context@ == trim_seq(form.context@) && req.config@ == form.config@
                    &&& same_inputs(form, new_form)
                    &&& new_form.error is None
                    &&& final(self).load_in_flight
                }
            }),
    {
        if !storage_available {
            self.new_cluster_form.save_failed("cluster storage is not available");
            return None;
        }
        let context = trim_str(self.new_cluster_form.context.as_str());
        let config = self.new_cluster_form.config.clone();
        let trimmed_config = trim_str(config.as_str());
        if crate::resource_panel::components::char_count(context.as_str()) == 0 {
            self.new_cluster_form.save_failed("context is required");
            return None;
        }
        if crate::resource_panel::components::char_count(trimmed_config.as_str()) == 0 {
            self.new_cluster_form.save_failed("config is required");
            return None;
        }
        if !runtime_available {
            self.new_cluster_form.save_failed("cluster storage runtime is not available");
            return None;
        }
        self.new_cluster_form.save_started();
        self.load_in_flight = true;
        Some(CreateClusterRequest { context, config })
    }

    /// Takes an answer to a cluster request.  The answer is whether the
    /// cluster list is to be reloaded (after a cluster was stored).
    pub fn apply_event(&mut self, event: ClusterUiEvent) -> (r: bool)
        ensures
            match event {
                ClusterUiEvent::ClustersLoaded(Ok(clusters)) => {
                    &&& !r
                    &&& !final(self).load_in_flight
                    &&& final(self).clusters@ == clusters@
                    &&& final(self).load_error is None
                    &&& final(self).new_cluster_form == old(self).new_cluster_form
                    &&& final(self).connections == old(self).connections
                },
                ClusterUiEvent::ClustersLoaded(Err(e)) => {
                    &&& !r
                    &&& !final(self).load_in_flight
                    &&& final(self).clusters == old(self).clusters
                    &&& final(self).load_error == Some(e)
                    &&& final(self).new_cluster_form == old(self).new_cluster_form
                    &&& final(self).connections == old(self).connections
                },
                ClusterUiEvent::ClusterCreated(Ok(cluster)) => {
                    &&& r
                    &&& final(self).new_cluster_form.is_cleared()
                    &&& final(self).clusters@ == old(self).clusters@.push(cluster)
                    &&& final(self).load_in_flight == old(self).load_in_flight
                    &&& final(self).load_error == old(self).load_error
                    &&& final(self).connections == old(self).connections
                },
                ClusterUiEvent::ClusterCreated(Err(e)) => {
                    &&& !r
                    &&& !final(self).load_in_flight
                    &&& failed_with(old(self).new_cluster_form, final(self).new_cluster_form, e@)
                    &&& final(self).clusters == old(self).clusters
                    &&& final(self).load_error == old(self).load_error
                    &&& final(self).connections == old(self).connections
                },
                ClusterUiEvent::ClusterInitialized { cluster_id, result } => {
                    &&& !r
                    &&& match result {
                        Ok(info) => recorded(old(self).connections.entries@, final(self).connections.entries@, cluster_id@,
                            ClusterConnectionState::Ready { info }),
                        Err(error) => recorded(old(self).connections.entries@, final(self).connections.entries@, cluster_id@,
                            ClusterConnectionState::Failed { error }),
                    }
                    &&& final(self).clusters == old(self).clusters
                    &&& final(self).load_in_flight == old(self).load_in_flight
                    &&& final(self).load_error == old(self).load_error
                    &&& final(self).new_cluster_form == old(self).new_cluster_form
                },
                ClusterUiEvent::ConfigFileLoaded(Ok(config)) => {
                    &&& !r
                    &&& final(self).new_cluster_form.config == config
                    &&& final(self).new_cluster_form.error is None
                    &&& final(self).new_cluster_form.open == old(self).new_cluster_form.open
                    &&& final(self).new_cluster_form.context == old(self).new_cluster_form.context
                    &&& final(self).clusters == old(self).clusters
                    &&& final(self).load_in_flight == old(self).load_in_flight
                    &&& final(self).load_error == old(self).load_error
                    &&& final(self).connections == old(self).connections
                },
                ClusterUiEvent::ConfigFileLoaded(Err(e)) => {
                    &&& !r
                    &&& failed_with(old(self).new_cluster_form, final(self).new_cluster_form, e@)
                    &&& final(self).clusters == old(self).clusters
                    &&& final(self).load_in_flight == old(self).load_in_flight
                    &&& final(self).load_error == old(self).load_error
                    &&& final(self).connections == old(self).connections
                },
            },
    {
        match event {
            ClusterUiEvent::ClustersLoaded(result) => {
                self.load_in_flight = false;
                match result {
                    Ok(clusters) => {
                        self.clusters = clusters;
                        self.load_error = None;
                    },
                    Err(error) => self.load_error = Some(error),
                }
                false
            },
            ClusterUiEvent::ClusterCreated(result) => match result {
                Ok(cluster) => {
                    self.new_cluster_form.save_succeeded();
                    self.clusters.push(cluster);
                    true
                },
                Err(error) => {
                    self.load_in_flight = false;
                    self.new_cluster_form.save_failed(error.as_str());
                    false
                },
            },
            ClusterUiEvent::ClusterInitialized { cluster_id, result } => {
                self.connections.apply_initialized(cluster_id.as_str(), result);
                false
            },
            ClusterUiEvent::ConfigFileLoaded(result) => {
                match result {
                    Ok(config) => {
                        self.new_cluster_form.config = config;
                        self.new_cluster_form.error = None;
                    },
                    Err(error) => self.new_cluster_form.save_failed(error.as_str()),
                }
                false
            },
        }
    }
}


/// Once a cluster's connection request is out, or the cluster has
/// connected, selecting it again sends no second request.
pub proof fn law_connecting_clusters_are_not_initialized_again(
    old: Seq<(String, ClusterConnectionState)>,
    new: Seq<(String, ClusterConnectionState)>,
    id: Seq<char>,
    state: ClusterConnectionState,
)
    requires
        recorded(old, new, id, state),
        state is Initializing || state is Ready,
    ensures
        !current_state(new, id).needs_initialization(),
{
}

/// A connection answer for one cluster leaves every other cluster's
/// connection state as it was.
pub proof fn law_answers_touch_their_cluster_only(
    old: Seq<(String, ClusterConnectionState)>,
    new: Seq<(String, ClusterConnectionState)>,
    id: Seq<char>,
    state: ClusterConnectionState,
    other: Seq<char>,
)
    requires
        recorded(old, new, id, state),
        other != id,
    ensures
        current_state(new, other) == current_state(old, other),
{
}
} // verus!
