//! The resource panels of each cluster's workspace, and the delivery of
//! the resource services' answers to them.
use vstd::prelude::*;
use crate::keyed::{entry_position, entry_value, first_entry, lemma_entry_at, lemma_push_entry, lemma_update_entry, recorded};
use crate::resource_panel::config_shared::{config_event_post, ConfigResourceKind, ConfigResourcePanel};
use crate::resource_panel::cron_job::{cron_job_event_post, CronJobResourcePanel};
use crate::resource_panel::custom_resources::{custom_event_post, CustomResourcesPanel};
use crate::resource_panel::deployment::{deployment_event_post, DeploymentResourcePanel};
use crate::resource_panel::event::{event_event_post, EventResourcePanel};
use crate::resource_panel::job::{job_event_post, JobResourcePanel};
use crate::resource_panel::list_panel::{list_event_post, ClusterRoleBindingResourcePanel, EndpointsResourcePanel, ListKind};
use crate::resource_panel::ResourceUiEvent;
use crate::workspace::PanelId;

verus! {

/// The resource panels of one cluster's workspace.
pub struct ClusterPanels {
    pub job: JobResourcePanel,
    pub cron_job: CronJobResourcePanel,
    pub deployment: DeploymentResourcePanel,
    pub event: EventResourcePanel,
    pub horizontal_pod_autoscaler: ConfigResourcePanel,
    pub pod_disruption_budget: ConfigResourcePanel,
    pub priority_class: ConfigResourcePanel,
    pub runtime_class: ConfigResourcePanel,
    pub lease: ConfigResourcePanel,
    pub mutating_webhook_configuration: ConfigResourcePanel,
    pub validating_webhook_configuration: ConfigResourcePanel,
    pub custom_resources: CustomResourcesPanel,
    pub endpoints: EndpointsResourcePanel,
    pub cluster_role_binding: ClusterRoleBindingResourcePanel,
}

impl ClusterPanels {
    /// Every panel is well formed and shows the kind its field names.
    pub open spec fn wf(&self) -> bool {
        &&& self.job.wf()
        &&& self.cron_job.wf()
        &&& self.deployment.wf()
        &&& self.event.wf()
        &&& self.horizontal_pod_autoscaler.wf() && self.horizontal_pod_autoscaler.kind == ConfigResourceKind::HorizontalPodAutoscaler
        &&& self.pod_disruption_budget.wf() && self.pod_disruption_budget.kind == ConfigResourceKind::PodDisruptionBudget
        &&& self.priority_class.wf() && self.priority_class.kind == ConfigResourceKind::PriorityClass
        &&& self.runtime_class.wf() && self.runtime_class.kind == ConfigResourceKind::RuntimeClass
        &&& self.lease.wf() && self.lease.kind == ConfigResourceKind::Lease
        &&& self.mutating_webhook_configuration.wf()
            && self.mutating_webhook_configuration.kind == ConfigResourceKind::MutatingWebhookConfiguration
        &&& self.validating_webhook_configuration.wf()
            && self.validating_webhook_configuration.kind == ConfigResourceKind::ValidatingWebhookConfiguration
        &&& self.custom_resources.wf()
        &&& self.endpoints.inner.wf() && self.endpoints.inner.kind == ListKind::Endpoints
        &&& self.cluster_role_binding.inner.wf() && self.cluster_role_binding.inner.kind == ListKind::ClusterRoleBindings
    }

    /// Every panel is empty and has sent nothing.
    pub open spec fn is_initial(&self) -> bool {
        &&& self.job.state.is_initial() && self.job.state.next_request_id == 0
        &&& self.cron_job.state.is_initial() && self.cron_job.state.next_request_id == 0
        &&& self.deployment.state.is_initial() && self.deployment.state.next_request_id == 0
        &&& self.event.state.is_initial() && self.event.state.next_request_id == 0
        &&& self.horizontal_pod_autoscaler.state.is_initial() && self.horizontal_pod_autoscaler.state.next_request_id == 0
        &&& self.pod_disruption_budget.state.is_initial() && self.pod_disruption_budget.state.next_request_id == 0
        &&& self.priority_class.state.is_initial() && self.priority_class.state.next_request_id == 0
        &&& self.runtime_class.state.is_initial() && self.runtime_class.state.next_request_id == 0
        &&& self.lease.state.is_initial() && self.lease.state.next_request_id == 0
        &&& self.mutating_webhook_configuration.state.is_initial()
            && self.mutating_webhook_configuration.state.next_request_id == 0
        &&& self.validating_webhook_configuration.state.is_initial()
            && self.validating_webhook_configuration.state.next_request_id == 0
        &&& self.custom_resources.crds.is_initial() && self.custom_resources.crds.next_request_id == 0
        &&& self.endpoints.inner.state.is_initial() && self.endpoints.inner.state.next_request_id == 0
        &&& self.cluster_role_binding.inner.state.is_initial() && self.cluster_role_binding.inner.state.next_request_id == 0
    }

    /// Every panel but `panel` is as it was.
    pub open spec fn others_unchanged(&self, old: Self, panel: PanelId) -> bool {
        &&& panel != PanelId::Job ==> self.job == old.job
        &&& panel != PanelId::CronJob ==> self.cron_job == old.cron_job
        &&& panel != PanelId::Deployment ==> self.deployment == old.deployment
        &&& panel != PanelId::Event ==> self.event == old.event
        &&& panel != PanelId::HorizontalPodAutoscaler ==> self.horizontal_pod_autoscaler == old.horizontal_pod_autoscaler
        &&& panel != PanelId::PodDisruptionBudget ==> self.pod_disruption_budget == old.pod_disruption_budget
        &&& panel != PanelId::PriorityClass ==> self.priority_class == old.priority_class
        &&& panel != PanelId::RuntimeClass ==> self.runtime_class == old.runtime_class
        &&& panel != PanelId::Lease ==> self.lease == old.lease
        &&& panel != PanelId::MutatingWebhookConfiguration
            ==> self.mutating_webhook_configuration == old.mutating_webhook_configuration
        &&& panel != PanelId::ValidatingWebhookConfiguration
            ==> self.validating_webhook_configuration == old.validating_webhook_configuration
        &&& panel != PanelId::CustomResources ==> self.custom_resources == old.custom_resources
        &&& panel != PanelId::Endpoints ==> self.endpoints == old.endpoints
        &&& panel != PanelId::ClusterRoleBinding ==> self.cluster_role_binding == old.cluster_role_binding
    }

    /// What the panel `panel` makes of an answer; a panel that this
    /// workspace does not hold changes nothing.
    pub open spec fn delivered(old: Self, new: Self, panel: PanelId, event: ResourceUiEvent, now: int) -> bool {
        &&& new.others_unchanged(old, panel)
        &&& match panel {
            PanelId::Job => job_event_post(old.job.state, new.job.state, event, now)
                && new.job.view_dialog == old.job.view_dialog && new.job.describe_dialog == old.job.describe_dialog,
            PanelId::CronJob => cron_job_event_post(old.cron_job.state, new.cron_job.state, event, now)
                && new.cron_job.view_dialog == old.cron_job.view_dialog
                && new.cron_job.describe_dialog == old.cron_job.describe_dialog,
            PanelId::Deployment => deployment_event_post(old.deployment.state, new.deployment.state, event, now)
                && new.deployment.view_dialog == old.deployment.view_dialog
                && new.deployment.describe_dialog == old.deployment.describe_dialog,
            PanelId::Event => event_event_post(old.event.state, new.event.state, event, now)
                && new.event.view_dialog == old.event.view_dialog && new.event.describe_dialog == old.event.describe_dialog,
            PanelId::HorizontalPodAutoscaler => config_delivered(old.horizontal_pod_autoscaler, new.horizontal_pod_autoscaler, event, now),
            PanelId::PodDisruptionBudget => config_delivered(old.pod_disruption_budget, new.pod_disruption_budget, event, now),
            PanelId::PriorityClass => config_delivered(old.priority_class, new.priority_class, event, now),
            PanelId::RuntimeClass => config_delivered(old.runtime_class, new.runtime_class, event, now),
            PanelId::Lease => config_delivered(old.lease, new.lease, event, now),
            PanelId::MutatingWebhookConfiguration => config_delivered(
                old.mutating_webhook_configuration,
                new.mutating_webhook_configuration,
                event,
                now,
            ),
            PanelId::ValidatingWebhookConfiguration => config_delivered(
                old.validating_webhook_configuration,
                new.validating_webhook_configuration,
                event,
                now,
            ),
            PanelId::CustomResources => custom_event_post(old.custom_resources, new.custom_resources, event, now),
            PanelId::Endpoints => list_event_post(old.endpoints.inner.kind, old.endpoints.inner.state, new.endpoints.inner.state, event, now)
                && new.endpoints.inner.kind == old.endpoints.inner.kind
                && new.endpoints.inner.view_dialog == old.endpoints.inner.view_dialog,
            PanelId::ClusterRoleBinding => list_event_post(
                old.cluster_role_binding.inner.kind,
                old.cluster_role_binding.inner.state,
                new.cluster_role_binding.inner.state,
                event,
                now,
            ) && new.cluster_role_binding.inner.kind == old.cluster_role_binding.inner.kind
                && new.cluster_role_binding.inner.view_dialog == old.cluster_role_binding.inner.view_dialog,
            _ => new == old,
        }
    }

    /// A new workspace's panels, all empty.
    pub fn new() -> (r: ClusterPanels)
        ensures
            r.wf(),
            r.is_initial(),
    {
        ClusterPanels {
            job: JobResourcePanel::new(),
            cron_job: CronJobResourcePanel::new(),
            deployment: DeploymentResourcePanel::new(),
            event: EventResourcePanel::new(),
            horizontal_pod_autoscaler: ConfigResourcePanel::new(ConfigResourceKind::HorizontalPodAutoscaler),
            pod_disruption_budget: ConfigResourcePanel::new(ConfigResourceKind::PodDisruptionBudget),
            priority_class: ConfigResourcePanel::new(ConfigResourceKind::PriorityClass),
            runtime_class: ConfigResourcePanel::new(ConfigResourceKind::RuntimeClass),
            lease: ConfigResourcePanel::new(ConfigResourceKind::Lease),
            mutating_webhook_configuration: ConfigResourcePanel::new(ConfigResourceKind::MutatingWebhookConfiguration),
            validating_webhook_configuration: ConfigResourcePanel::new(ConfigResourceKind::ValidatingWebhookConfiguration),
            custom_resources: CustomResourcesPanel::new(),
            endpoints: EndpointsResourcePanel::new(),
            cluster_role_binding: ClusterRoleBindingResourcePanel::new(),
        }
    }

    /// Hands an answer to the panel `panel`; `now` dates the ages of new
    /// rows.  Answers for panels that this workspace does not hold are
    /// dropped.
    pub fn deliver(&mut self, panel: PanelId, event: ResourceUiEvent, now: i64)
        requires
            old(self).wf(),
        ensures
            final(self).wf(),
            Self::delivered(*old(self), *final(self), panel, event, now as int),
    {
        match panel {
            PanelId::Job => self.job.apply_event(event, now),
            PanelId::CronJob => self.cron_job.apply_event(event, now),
            PanelId::Deployment => self.deployment.apply_event(event, now),
            PanelId::Event => self.event.apply_event(event, now),
            PanelId::HorizontalPodAutoscaler => self.horizontal_pod_autoscaler.apply_event(event, now),
            PanelId::PodDisruptionBudget => self.pod_disruption_budget.apply_event(event, now),
            PanelId::PriorityClass => self.priority_class.apply_event(event, now),
            PanelId::RuntimeClass => self.runtime_class.apply_event(event, now),
            PanelId::Lease => self.lease.apply_event(event, now),
            PanelId::MutatingWebhookConfiguration => self.mutating_webhook_configuration.apply_event(event, now),
            PanelId::ValidatingWebhookConfiguration => self.validating_webhook_configuration.apply_event(event, now),
            PanelId::CustomResources => self.custom_resources.apply_event(event, now),
            PanelId::Endpoints => self.endpoints.apply_event(event, now),
            PanelId::ClusterRoleBinding => self.cluster_role_binding.apply_event(event, now),
            _ => {},
        }
    }
}

/// What a configuration panel makes of an answer.
pub open spec fn config_delivered(old: ConfigResourcePanel, new: ConfigResourcePanel, event: ResourceUiEvent, now: int) -> bool {
    &&& new.kind == old.kind
    &&& config_event_post(old.kind, old.state, new.state, event, now)
    &&& new.view_dialog == old.view_dialog
    &&& new.describe_dialog == old.describe_dialog
}

/// The workspaces' panels, one entry per cluster id.
pub struct ClusterPanelMap {
    pub clusters: Vec<(String, ClusterPanels)>,
}

impl ClusterPanelMap {
    /// Every cluster's panels are well formed.
    pub open spec fn wf(&self) -> bool {
        forall|i: int| 0 <= i < self.clusters@.len() ==> (#[trigger] self.clusters@[i]).1.wf()
    }

    /// No cluster has panels yet.
    pub fn new() -> (r: ClusterPanelMap)
        ensures
            r.wf(),
            forall|k: Seq<char>| #[trigger] entry_value(r.clusters@, k) is None,
    {
        ClusterPanelMap { clusters: Vec::new() }
    }

    /// The panels of cluster `id`.
    pub fn panels(&self, id: &str) -> (r: Option<&ClusterPanels>)
        ensures
            match r {
                Some(p) => entry_value(self.clusters@, id@) == Some(*p),
                None => entry_value(self.clusters@, id@) is None,
            },
    {
        match entry_position(&self.clusters, id) {
            Some(i) => {
                proof {
                    lemma_entry_at(self.clusters@, id@, i as int);
                }
                Some(&self.clusters[i].1)
            },
            None => None,
        }
    }

    /// Gives cluster `id` its panels unless it has them; the other
    /// clusters' panels stay as they are.
    pub fn ensure_cluster(&mut self, id: &str)
        requires
            old(self).wf(),
        ensures
            final(self).wf(),
            entry_value(old(self).clusters@, id@) is Some ==> final(self).clusters == old(self).clusters,
            entry_value(old(self).clusters@, id@) is None ==> exists|p: ClusterPanels| #[trigger] p.is_initial()
                && recorded(old(self).clusters@, final(self).clusters@, id@, p),
    {
        match entry_position(&self.clusters, id) {
            Some(_) => {},
            None => {
                let ghost before = self.clusters@;
                let key = id.to_owned();
                let ghost k = key;
                let panels = ClusterPanels::new();
                let ghost p = panels;
                self.clusters.push((key, panels));
                proof {
                    lemma_push_entry(before, k, p);
                    assert(p.is_initial());
                }
                assert forall|i: int| 0 <= i < self.clusters@.len() implies (#[trigger] self.clusters@[i]).1.wf() by {
                    if i < before.len() {
                        assert(self.clusters@[i] == before[i]);
                    }
                }
            },
        }
    }

    /// Hands an answer to the panel `panel` of cluster `id`, whose panels
    /// are made first if it has none; the other clusters' panels stay as
    /// they are.
    pub fn deliver(&mut self, id: &str, panel: PanelId, event: ResourceUiEvent, now: i64)
        requires
            old(self).wf(),
        ensures
            final(self).wf(),
            exists|before: ClusterPanels, after: ClusterPanels| {
                &&& #[trigger] ClusterPanels::delivered(before, after, panel, event, now as int)
                &&& recorded(old(self).clusters@, final(self).clusters@, id@, after)
                &&& match entry_value(old(self).clusters@, id@) {
                    Some(b) => before == b,
                    None => before.is_initial(),
                }
            },
    {
        let ghost orig = self.clusters@;
        self.ensure_cluster(id);
        let ghost mid = self.clusters@;
        let i = match entry_position(&self.clusters, id) {
            Some(i) => i,
            None => {
                proof {
                    assert(false);
                }
                return ;
            },
        };
        proof {
            lemma_entry_at(mid, id@, i as int);
        }
        let (key, mut panels) = self.clusters.remove(i);
        let ghost before = panels;
        assert(mid[i as int] == (key, before));
        panels.deliver(panel, event, now);
        let ghost after = panels;
        self.clusters.insert(i, (key, panels));
        proof {
            assert(self.clusters@ =~= mid.update(i as int, (mid[i as int].0, after)));
            lemma_update_entry(mid, id@, i as int, after);
            match entry_value(orig, id@) {
                Some(b) => {
                    assert(mid == orig);
                },
                None => {
                    let p = choose|p: ClusterPanels| #[trigger] p.is_initial() && recorded(orig, mid, id@, p);
                    assert(entry_value(mid, id@) == Some(p));
                },
            }
            assert forall|k: Seq<char>| k != id@ implies #[trigger] entry_value(self.clusters@, k) == entry_value(orig, k) by {
                if entry_value(orig, id@) is None {
                    let p = choose|p: ClusterPanels| #[trigger] p.is_initial() && recorded(orig, mid, id@, p);
                    assert(entry_value(mid, k) == entry_value(orig, k));
                }
            }
            assert(ClusterPanels::delivered(before, after, panel, event, now as int));
        }
        assert forall|j: int| 0 <= j < self.clusters@.len() implies (#[trigger] self.clusters@[j]).1.wf() by {
            if j != i {
                assert(self.clusters@[j] == mid[j]);
            }
        }
    }
}

} // verus!
