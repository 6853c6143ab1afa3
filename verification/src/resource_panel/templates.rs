//! Manifest templates for the create dialogs: a built-in example for the
//! common kinds, and a bare skeleton for any other kind.
use vstd::prelude::*;
use crate::resource_panel::components::{ResourceMetadata, namespace_line, namespace_line_spec};
use crate::text::{push_char, push_str, str_eq};

verus! {

/// A piece of a manifest template: fixed text, or a value filled in.
#[derive(Clone, Copy, Debug, PartialEq, Eq)]
pub enum TemplatePart {
    Text(&'static str),
    Name,
    Namespace,
    ApiVersion,
    Kind,
    NamespaceLine,
    RoleKind,
    RoleName,
}

/// The values a template is filled with.
pub struct TemplateValues {
    pub name: String,
    pub namespace: String,
    pub api_version: String,
    pub kind: String,
    pub namespace_line: String,
    pub role_kind: String,
    pub role_name: String,
}

/// The texts a template is filled with.
pub ghost struct TemplateFill {
    pub name: Seq<char>,
    pub namespace: Seq<char>,
    pub api_version: Seq<char>,
    pub kind: Seq<char>,
    pub namespace_line: Seq<char>,
    pub role_kind: Seq<char>,
    pub role_name: Seq<char>,
}

impl View for TemplateValues {
    type V = TemplateFill;

    open spec fn view(&self) -> TemplateFill {
        TemplateFill {
            name: self.name@,
            namespace: self.namespace@,
            api_version: self.api_version@,
            kind: self.kind@,
            namespace_line: self.namespace_line@,
            role_kind: self.role_kind@,
            role_name: self.role_name@,
        }
    }
}

/// The text of one template part.
pub open spec fn part_text(p: TemplatePart, v: TemplateFill) -> Seq<char> {
    match p {
        TemplatePart::Text(t) => t@,
        TemplatePart::Name => v.name,
        TemplatePart::Namespace => v.namespace,
        TemplatePart::ApiVersion => v.api_version,
        TemplatePart::Kind => v.kind,
        TemplatePart::NamespaceLine => v.namespace_line,
        TemplatePart::RoleKind => v.role_kind,
        TemplatePart::RoleName => v.role_name,
    }
}

/// A template filled in: its parts' texts one after another.
pub open spec fn render(parts: Seq<TemplatePart>, v: TemplateFill) -> Seq<char>
    decreases parts.len(),
{
    if parts.len() == 0 {
        Seq::empty()
    } else {
        render(parts.drop_last(), v) + part_text(parts.last(), v)
    }
}

/// Fills in a template.
pub fn render_template(parts: &Vec<TemplatePart>, values: &TemplateValues) -> (r: String)
    ensures
        r@ == render(parts@, values@),
{
    let mut out = String::new();
    let mut i: usize = 0;
    while i < parts.len()
        invariant
            i <= parts@.len(),
            out@ == render(parts@.take(i as int), values@),
        decreases parts@.len() - i,
    {
        assert(parts@.take(i + 1).drop_last() =~= parts@.take(i as int));
        assert(parts@.take(i + 1).last() == parts@[i as int]);
        match parts[i] {
            TemplatePart::Text(t) => push_str(&mut out, t),
            TemplatePart::Name => push_str(&mut out, values.name.as_str()),
            TemplatePart::Namespace => push_str(&mut out, values.namespace.as_str()),
            TemplatePart::ApiVersion => push_str(&mut out, values.api_version.as_str()),
            TemplatePart::Kind => push_str(&mut out, values.kind.as_str()),
            TemplatePart::NamespaceLine => push_str(&mut out, values.namespace_line.as_str()),
            TemplatePart::RoleKind => push_str(&mut out, values.role_kind.as_str()),
            TemplatePart::RoleName => push_str(&mut out, values.role_name.as_str()),
        }
        i = i + 1;
    }
    assert(parts@.take(i as int) =~= parts@);
    out
}

/// The parts of the built-in manifest template of a kind, if it has one.
pub open spec fn builtin_template(kind: Seq<char>) -> Option<Seq<TemplatePart>> {
    if kind == "Deployment"@ || kind == "ReplicaSet"@ {
        Some(seq![
            TemplatePart::Text("apiVersion: "),
            TemplatePart::ApiVersion,
            TemplatePart::Text("\nkind: "),
            TemplatePart::Kind,
            TemplatePart::Text("\nmetadata:\n  name: "),
            TemplatePart::Name,
            TemplatePart::Text("\n  namespace: "),
            TemplatePart::Namespace,
            TemplatePart::Text("\nspec:\n  replicas: 1\n  selector:\n    matchLabels:\n      app: "),
            TemplatePart::Name,
            TemplatePart::Text("\n  template:\n    metadata:\n      labels:\n        app: "),
            TemplatePart::Name,
            TemplatePart::Text("\n    spec:\n      containers:\n        - name: app\n          image: nginx:latest\n"),
        ])
    } else if kind == "DaemonSet"@ {
        Some(seq![
            TemplatePart::Text("apiVersion: apps/v1\nkind: DaemonSet\nmetadata:\n  name: "),
            TemplatePart::Name,
            TemplatePart::Text("\n  namespace: "),
            TemplatePart::Namespace,
            TemplatePart::Text("\nspec:\n  selector:\n    matchLabels:\n      app: "),
            TemplatePart::Name,
            TemplatePart::Text("\n  template:\n    metadata:\n      labels:\n        app: "),
            TemplatePart::Name,
            TemplatePart::Text("\n    spec:\n      containers:\n        - name: app\n          image: nginx:latest\n"),
        ])
    } else if kind == "StatefulSet"@ {
        Some(seq![
            TemplatePart::Text("apiVersion: apps/v1\nkind: StatefulSet\nmetadata:\n  name: "),
            TemplatePart::Name,
            TemplatePart::Text("\n  namespace: "),
            TemplatePart::Namespace,
            TemplatePart::Text("\nspec:\n  serviceName: "),
            TemplatePart::Name,
            TemplatePart::Text("\n  replicas: 1\n  selector:\n    matchLabels:\n      app: "),
            TemplatePart::Name,
            TemplatePart::Text("\n  template:\n    metadata:\n      labels:\n        app: "),
            TemplatePart::Name,
            TemplatePart::Text("\n    spec:\n      containers:\n        - name: app\n          image: nginx:latest\n"),
        ])
    } else if kind == "Job"@ {
        Some(seq![
            TemplatePart::Text("apiVersion: batch/v1\nkind: Job\nmetadata:\n  name: "),
            TemplatePart::Name,
            TemplatePart::Text("\n  namespace: "),
            TemplatePart::Namespace,
            TemplatePart::Text("\nspec:\n  template:\n    spec:\n      restartPolicy: Never\n      containers:\n        - name: app\n          image: busybox:latest\n          command:\n            - /bin/sh\n            - -c\n            - date\n"),
        ])
    } else if kind == "Service"@ {
        Some(seq![
            TemplatePart::Text("apiVersion: v1\nkind: Service\nmetadata:\n  name: "),
            TemplatePart::Name,
            TemplatePart::Text("\n  namespace: "),
            TemplatePart::Namespace,
            TemplatePart::Text("\nspec:\n  selector:\n    app: "),
            TemplatePart::Name,
            TemplatePart::Text("\n  ports:\n    - name: http\n      port: 80\n      targetPort: 80\n"),
        ])
    } else if kind == "EndpointSlice"@ {
        Some(seq![
            TemplatePart::Text("apiVersion: discovery.k8s.io/v1\nkind: EndpointSlice\nmetadata:\n  name: "),
            TemplatePart::Name,
            TemplatePart::Text("\n  namespace: "),
            TemplatePart::Namespace,
            TemplatePart::Text("\n  labels:\n    kubernetes.io/service-name: "),
            TemplatePart::Name,
            TemplatePart::Text("\naddressType: IPv4\nports:\n  - name: http\n    protocol: TCP\n    port: 80\nendpoints: []\n"),
        ])
    } else if kind == "Ingress"@ {
        Some(seq![
            TemplatePart::Text("apiVersion: networking.k8s.io/v1\nkind: Ingress\nmetadata:\n  name: "),
            TemplatePart::Name,
            TemplatePart::Text("\n  namespace: "),
            TemplatePart::Namespace,
            TemplatePart::Text("\nspec:\n  rules:\n    - http:\n        paths:\n          - path: /\n            pathType: Prefix\n            backend:\n              service:\n                name: "),
            TemplatePart::Name,
            TemplatePart::Text("\n                port:\n                  number: 80\n"),
        ])
    } else if kind == "NetworkPolicy"@ {
        Some(seq![
            TemplatePart::Text("apiVersion: networking.k8s.io/v1\nkind: NetworkPolicy\nmetadata:\n  name: "),
            TemplatePart::Name,
            TemplatePart::Text("\n  namespace: "),
            TemplatePart::Namespace,
            TemplatePart::Text("\nspec:\n  podSelector: {}\n  policyTypes:\n    - Ingress\n"),
        ])
    } else if kind == "PersistentVolumeClaim"@ {
        Some(seq![
            TemplatePart::Text("apiVersion: v1\nkind: PersistentVolumeClaim\nmetadata:\n  name: "),
            TemplatePart::Name,
            TemplatePart::Text("\n  namespace: "),
            TemplatePart::Namespace,
            TemplatePart::Text("\nspec:\n  accessModes:\n    - ReadWriteOnce\n  resources:\n    requests:\n      storage: 1Gi\n"),
        ])
    } else if kind == "PersistentVolume"@ {
        Some(seq![
            TemplatePart::Text("apiVersion: v1\nkind: PersistentVolume\nmetadata:\n  name: "),
            TemplatePart::Name,
            TemplatePart::Text("\nspec:\n  capacity:\n    storage: 1Gi\n  accessModes:\n    - ReadWriteOnce\n  persistentVolumeReclaimPolicy: Retain\n  storageClassName: manual\n  hostPath:\n    path: /tmp/"),
            TemplatePart::Name,
            TemplatePart::Text("\n"),
        ])
    } else if kind == "StorageClass"@ {
        Some(seq![
            TemplatePart::Text("apiVersion: storage.k8s.io/v1\nkind: StorageClass\nmetadata:\n  name: "),
            TemplatePart::Name,
            TemplatePart::Text("\nprovisioner: kubernetes.io/no-provisioner\nvolumeBindingMode: WaitForFirstConsumer\n"),
        ])
    } else if kind == "HorizontalPodAutoscaler"@ {
        Some(seq![
            TemplatePart::Text("apiVersion: autoscaling/v2\nkind: HorizontalPodAutoscaler\nmetadata:\n  name: "),
            TemplatePart::Name,
            TemplatePart::Text("\n  namespace: "),
            TemplatePart::Namespace,
            TemplatePart::Text("\nspec:\n  scaleTargetRef:\n    apiVersion: apps/v1\n    kind: Deployment\n    name: "),
            TemplatePart::Name,
            TemplatePart::Text("\n  minReplicas: 1\n  maxReplicas: 3\n  metrics:\n    - type: Resource\n      resource:\n        name: cpu\n        target:\n          type: Utilization\n          averageUtilization: 80\n"),
        ])
    } else if kind == "PodDisruptionBudget"@ {
        Some(seq![
            TemplatePart::Text("apiVersion: policy/v1\nkind: PodDisruptionBudget\nmetadata:\n  name: "),
            TemplatePart::Name,
            TemplatePart::Text("\n  namespace: "),
            TemplatePart::Namespace,
            TemplatePart::Text("\nspec:\n  minAvailable: 1\n  selector:\n    matchLabels:\n      app: "),
            TemplatePart::Name,
            TemplatePart::Text("\n"),
        ])
    } else if kind == "PriorityClass"@ {
        Some(seq![
            TemplatePart::Text("apiVersion: scheduling.k8s.io/v1\nkind: PriorityClass\nmetadata:\n  name: "),
            TemplatePart::Name,
            TemplatePart::Text("\nvalue: 1000\nglobalDefault: false\ndescription: Example priority class\n"),
        ])
    } else if kind == "RuntimeClass"@ {
        Some(seq![
            TemplatePart::Text("apiVersion: node.k8s.io/v1\nkind: RuntimeClass\nmetadata:\n  name: "),
            TemplatePart::Name,
            TemplatePart::Text("\nhandler: runc\n"),
        ])
    } else if kind == "Lease"@ {
        Some(seq![
            TemplatePart::Text("apiVersion: coordination.k8s.io/v1\nkind: Lease\nmetadata:\n  name: "),
            TemplatePart::Name,
            TemplatePart::Text("\n  namespace: "),
            TemplatePart::Namespace,
            TemplatePart::Text("\nspec:\n  holderIdentity: "),
            TemplatePart::Name,
            TemplatePart::Text("\n  leaseDurationSeconds: 30\n"),
        ])
    } else if kind == "ResourceQuota"@ {
        Some(seq![
            TemplatePart::Text("apiVersion: v1\nkind: ResourceQuota\nmetadata:\n  name: "),
            TemplatePart::Name,
            TemplatePart::Text("\n  namespace: "),
            TemplatePart::Namespace,
            TemplatePart::Text("\nspec:\n  hard:\n    pods: \"10\"\n    requests.cpu: \"2\"\n    requests.memory: 2Gi\n"),
        ])
    } else if kind == "LimitRange"@ {
        Some(seq![
            TemplatePart::Text("apiVersion: v1\nkind: LimitRange\nmetadata:\n  name: "),
            TemplatePart::Name,
            TemplatePart::Text("\n  namespace: "),
            TemplatePart::Namespace,
            TemplatePart::Text("\nspec:\n  limits:\n    - type: Container\n      default:\n        cpu: 500m\n        memory: 512Mi\n      defaultRequest:\n        cpu: 100m\n        memory: 128Mi\n"),
        ])
    } else if kind == "Role"@ || kind == "ClusterRole"@ {
        Some(seq![
            TemplatePart::Text("apiVersion: rbac.authorization.k8s.io/v1\nkind: "),
            TemplatePart::Kind,
            TemplatePart::Text("\nmetadata:\n  name: "),
            TemplatePart::Name,
            TemplatePart::Text("\n"),
            TemplatePart::NamespaceLine,
            TemplatePart::Text("rules:\n  - apiGroups: [\"\"]\n    resources: [\"pods\"]\n    verbs: [\"get\", \"list\"]\n"),
        ])
    } else if kind == "RoleBinding"@ || kind == "ClusterRoleBinding"@ {
        Some(seq![
            TemplatePart::Text("apiVersion: rbac.authorization.k8s.io/v1\nkind: "),
            TemplatePart::Kind,
            TemplatePart::Text("\nmetadata:\n  name: "),
            TemplatePart::Name,
            TemplatePart::Text("\n"),
            TemplatePart::NamespaceLine,
            TemplatePart::Text("subjects:\n  - kind: ServiceAccount\n    name: default\n    namespace: "),
            TemplatePart::Namespace,
            TemplatePart::Text("\nroleRef:\n  apiGroup: rbac.authorization.k8s.io\n  kind: "),
            TemplatePart::RoleKind,
            TemplatePart::Text("\n  name: "),
            TemplatePart::RoleName,
            TemplatePart::Text("\n"),
        ])
    } else if kind == "CustomResourceDefinition"@ {
        Some(seq![
            TemplatePart::Text("apiVersion: apiextensions.k8s.io/v1\nkind: CustomResourceDefinition\nmetadata:\n  name: examples.miku.io\nspec:\n  group: miku.io\n  scope: Namespaced\n  names:\n    plural: examples\n    singular: example\n    kind: Example\n  versions:\n    - name: v1\n      served: true\n      storage: true\n      schema:\n        openAPIV3Schema:\n          type: object\n"),
        ])
    } else {
        None
    }
}

/// The parts of the built-in manifest template of a kind, if it has one.
pub fn builtin_template_of(kind: &str) -> (r: Option<Vec<TemplatePart>>)
    ensures
        match builtin_template(kind@) {
            Some(parts) => r matches Some(v) && v@ == parts,
            None => r is None,
        },
{
    let mut v: Vec<TemplatePart> = Vec::new();
    if str_eq(kind, "Deployment") || str_eq(kind, "ReplicaSet") {
        v.push(TemplatePart::Text("apiVersion: "));
        v.push(TemplatePart::ApiVersion);
        v.push(TemplatePart::Text("\nkind: "));
        v.push(TemplatePart::Kind);
        v.push(TemplatePart::Text("\nmetadata:\n  name: "));
        v.push(TemplatePart::Name);
        v.push(TemplatePart::Text("\n  namespace: "));
        v.push(TemplatePart::Namespace);
        v.push(TemplatePart::Text("\nspec:\n  replicas: 1\n  selector:\n    matchLabels:\n      app: "));
        v.push(TemplatePart::Name);
        v.push(TemplatePart::Text("\n  template:\n    metadata:\n      labels:\n        app: "));
        v.push(TemplatePart::Name);
        v.push(TemplatePart::Text("\n    spec:\n      containers:\n        - name: app\n          image: nginx:latest\n"));
        assert(v@ =~= seq![TemplatePart::Text("apiVersion: "), TemplatePart::ApiVersion, TemplatePart::Text("\nkind: "), TemplatePart::Kind, TemplatePart::Text("\nmetadata:\n  name: "), TemplatePart::Name, TemplatePart::Text("\n  namespace: "), TemplatePart::Namespace, TemplatePart::Text("\nspec:\n  replicas: 1\n  selector:\n    matchLabels:\n      app: "), TemplatePart::Name, TemplatePart::Text("\n  template:\n    metadata:\n      labels:\n        app: "), TemplatePart::Name, TemplatePart::Text("\n    spec:\n      containers:\n        - name: app\n          image: nginx:latest\n")]);
    } else if str_eq(kind, "DaemonSet") {
        v.push(TemplatePart::Text("apiVersion: apps/v1\nkind: DaemonSet\nmetadata:\n  name: "));
        v.push(TemplatePart::Name);
        v.push(TemplatePart::Text("\n  namespace: "));
        v.push(TemplatePart::Namespace);
        v.push(TemplatePart::Text("\nspec:\n  selector:\n    matchLabels:\n      app: "));
        v.push(TemplatePart::Name);
        v.push(TemplatePart::Text("\n  template:\n    metadata:\n      labels:\n        app: "));
        v.push(TemplatePart::Name);
        v.push(TemplatePart::Text("\n    spec:\n      containers:\n        - name: app\n          image: nginx:latest\n"));
        assert(v@ =~= seq![TemplatePart::Text("apiVersion: apps/v1\nkind: DaemonSet\nmetadata:\n  name: "), TemplatePart::Name, TemplatePart::Text("\n  namespace: "), TemplatePart::Namespace, TemplatePart::Text("\nspec:\n  selector:\n    matchLabels:\n      app: "), TemplatePart::Name, TemplatePart::Text("\n  template:\n    metadata:\n      labels:\n        app: "), TemplatePart::Name, TemplatePart::Text("\n    spec:\n      containers:\n        - name: app\n          image: nginx:latest\n")]);
    } else if str_eq(kind, "StatefulSet") {
        v.push(TemplatePart::Text("apiVersion: apps/v1\nkind: StatefulSet\nmetadata:\n  name: "));
        v.push(TemplatePart::Name);
        v.push(TemplatePart::Text("\n  namespace: "));
        v.push(TemplatePart::Namespace);
        v.push(TemplatePart::Text("\nspec:\n  serviceName: "));
        v.push(TemplatePart::Name);
        v.push(TemplatePart::Text("\n  replicas: 1\n  selector:\n    matchLabels:\n      app: "));
        v.push(TemplatePart::Name);
        v.push(TemplatePart::Text("\n  template:\n    metadata:\n      labels:\n        app: "));
        v.push(TemplatePart::Name);
        v.push(TemplatePart::Text("\n    spec:\n      containers:\n        - name: app\n          image: nginx:latest\n"));
        assert(v@ =~= seq![TemplatePart::Text("apiVersion: apps/v1\nkind: StatefulSet\nmetadata:\n  name: "), TemplatePart::Name, TemplatePart::Text("\n  namespace: "), TemplatePart::Namespace, TemplatePart::Text("\nspec:\n  serviceName: "), TemplatePart::Name, TemplatePart::Text("\n  replicas: 1\n  selector:\n    matchLabels:\n      app: "), TemplatePart::Name, TemplatePart::Text("\n  template:\n    metadata:\n      labels:\n        app: "), TemplatePart::Name, TemplatePart::Text("\n    spec:\n      containers:\n        - name: app\n          image: nginx:latest\n")]);
    } else if str_eq(kind, "Job") {
        v.push(TemplatePart::Text("apiVersion: batch/v1\nkind: Job\nmetadata:\n  name: "));
        v.push(TemplatePart::Name);
        v.push(TemplatePart::Text("\n  namespace: "));
        v.push(TemplatePart::Namespace);
        v.push(TemplatePart::Text("\nspec:\n  template:\n    spec:\n      restartPolicy: Never\n      containers:\n        - name: app\n          image: busybox:latest\n          command:\n            - /bin/sh\n            - -c\n            - date\n"));
        assert(v@ =~= seq![TemplatePart::Text("apiVersion: batch/v1\nkind: Job\nmetadata:\n  name: "), TemplatePart::Name, TemplatePart::Text("\n  namespace: "), TemplatePart::Namespace, TemplatePart::Text("\nspec:\n  template:\n    spec:\n      restartPolicy: Never\n      containers:\n        - name: app\n          image: busybox:latest\n          command:\n            - /bin/sh\n            - -c\n            - date\n")]);
    } else if str_eq(kind, "Service") {
        v.push(TemplatePart::Text("apiVersion: v1\nkind: Service\nmetadata:\n  name: "));
        v.push(TemplatePart::Name);
        v.push(TemplatePart::Text("\n  namespace: "));
        v.push(TemplatePart::Namespace);
        v.push(TemplatePart::Text("\nspec:\n  selector:\n    app: "));
        v.push(TemplatePart::Name);
        v.push(TemplatePart::Text("\n  ports:\n    - name: http\n      port: 80\n      targetPort: 80\n"));
        assert(v@ =~= seq![TemplatePart::Text("apiVersion: v1\nkind: Service\nmetadata:\n  name: "), TemplatePart::Name, TemplatePart::Text("\n  namespace: "), TemplatePart::Namespace, TemplatePart::Text("\nspec:\n  selector:\n    app: "), TemplatePart::Name, TemplatePart::Text("\n  ports:\n    - name: http\n      port: 80\n      targetPort: 80\n")]);
    } else if str_eq(kind, "EndpointSlice") {
        v.push(TemplatePart::Text("apiVersion: discovery.k8s.io/v1\nkind: EndpointSlice\nmetadata:\n  name: "));
        v.push(TemplatePart::Name);
        v.push(TemplatePart::Text("\n  namespace: "));
        v.push(TemplatePart::Namespace);
        v.push(TemplatePart::Text("\n  labels:\n    kubernetes.io/service-name: "));
        v.push(TemplatePart::Name);
        v.push(TemplatePart::Text("\naddressType: IPv4\nports:\n  - name: http\n    protocol: TCP\n    port: 80\nendpoints: []\n"));
        assert(v@ =~= seq![TemplatePart::Text("apiVersion: discovery.k8s.io/v1\nkind: EndpointSlice\nmetadata:\n  name: "), TemplatePart::Name, TemplatePart::Text("\n  namespace: "), TemplatePart::Namespace, TemplatePart::Text("\n  labels:\n    kubernetes.io/service-name: "), TemplatePart::Name, TemplatePart::Text("\naddressType: IPv4\nports:\n  - name: http\n    protocol: TCP\n    port: 80\nendpoints: []\n")]);
    } else if str_eq(kind, "Ingress") {
        v.push(TemplatePart::Text("apiVersion: networking.k8s.io/v1\nkind: Ingress\nmetadata:\n  name: "));
        v.push(TemplatePart::Name);
        v.push(TemplatePart::Text("\n  namespace: "));
        v.push(TemplatePart::Namespace);
        v.push(TemplatePart::Text("\nspec:\n  rules:\n    - http:\n        paths:\n          - path: /\n            pathType: Prefix\n            backend:\n              service:\n                name: "));
        v.push(TemplatePart::Name);
        v.push(TemplatePart::Text("\n                port:\n                  number: 80\n"));
        assert(v@ =~= seq![TemplatePart::Text("apiVersion: networking.k8s.io/v1\nkind: Ingress\nmetadata:\n  name: "), TemplatePart::Name, TemplatePart::Text("\n  namespace: "), TemplatePart::Namespace, TemplatePart::Text("\nspec:\n  rules:\n    - http:\n        paths:\n          - path: /\n            pathType: Prefix\n            backend:\n              service:\n                name: "), TemplatePart::Name, TemplatePart::Text("\n                port:\n                  number: 80\n")]);
    } else if str_eq(kind, "NetworkPolicy") {
        v.push(TemplatePart::Text("apiVersion: networking.k8s.io/v1\nkind: NetworkPolicy\nmetadata:\n  name: "));
        v.push(TemplatePart::Name);
        v.push(TemplatePart::Text("\n  namespace: "));
        v.push(TemplatePart::Namespace);
        v.push(TemplatePart::Text("\nspec:\n  podSelector: {}\n  policyTypes:\n    - Ingress\n"));
        assert(v@ =~= seq![TemplatePart::Text("apiVersion: networking.k8s.io/v1\nkind: NetworkPolicy\nmetadata:\n  name: "), TemplatePart::Name, TemplatePart::Text("\n  namespace: "), TemplatePart::Namespace, TemplatePart::Text("\nspec:\n  podSelector: {}\n  policyTypes:\n    - Ingress\n")]);
    } else if str_eq(kind, "PersistentVolumeClaim") {
        v.push(TemplatePart::Text("apiVersion: v1\nkind: PersistentVolumeClaim\nmetadata:\n  name: "));
        v.push(TemplatePart::Name);
        v.push(TemplatePart::Text("\n  namespace: "));
        v.push(TemplatePart::Namespace);
        v.push(TemplatePart::Text("\nspec:\n  accessModes:\n    - ReadWriteOnce\n  resources:\n    requests:\n      storage: 1Gi\n"));
        assert(v@ =~= seq![TemplatePart::Text("apiVersion: v1\nkind: PersistentVolumeClaim\nmetadata:\n  name: "), TemplatePart::Name, TemplatePart::Text("\n  namespace: "), TemplatePart::Namespace, TemplatePart::Text("\nspec:\n  accessModes:\n    - ReadWriteOnce\n  resources:\n    requests:\n      storage: 1Gi\n")]);
    } else if str_eq(kind, "PersistentVolume") {
        v.push(TemplatePart::Text("apiVersion: v1\nkind: PersistentVolume\nmetadata:\n  name: "));
        v.push(TemplatePart::Name);
        v.push(TemplatePart::Text("\nspec:\n  capacity:\n    storage: 1Gi\n  accessModes:\n    - ReadWriteOnce\n  persistentVolumeReclaimPolicy: Retain\n  storageClassName: manual\n  hostPath:\n    path: /tmp/"));
        v.push(TemplatePart::Name);
        v.push(TemplatePart::Text("\n"));
        assert(v@ =~= seq![TemplatePart::Text("apiVersion: v1\nkind: PersistentVolume\nmetadata:\n  name: "), TemplatePart::Name, TemplatePart::Text("\nspec:\n  capacity:\n    storage: 1Gi\n  accessModes:\n    - ReadWriteOnce\n  persistentVolumeReclaimPolicy: Retain\n  storageClassName: manual\n  hostPath:\n    path: /tmp/"), TemplatePart::Name, TemplatePart::Text("\n")]);
    } else if str_eq(kind, "StorageClass") {
        v.push(TemplatePart::Text("apiVersion: storage.k8s.io/v1\nkind: StorageClass\nmetadata:\n  name: "));
        v.push(TemplatePart::Name);
        v.push(TemplatePart::Text("\nprovisioner: kubernetes.io/no-provisioner\nvolumeBindingMode: WaitForFirstConsumer\n"));
        assert(v@ =~= seq![TemplatePart::Text("apiVersion: storage.k8s.io/v1\nkind: StorageClass\nmetadata:\n  name: "), TemplatePart::Name, TemplatePart::Text("\nprovisioner: kubernetes.io/no-provisioner\nvolumeBindingMode: WaitForFirstConsumer\n")]);
    } else if str_eq(kind, "HorizontalPodAutoscaler") {
        v.push(TemplatePart::Text("apiVersion: autoscaling/v2\nkind: HorizontalPodAutoscaler\nmetadata:\n  name: "));
        v.push(TemplatePart::Name);
        v.push(TemplatePart::Text("\n  namespace: "));
        v.push(TemplatePart::Namespace);
        v.push(TemplatePart::Text("\nspec:\n  scaleTargetRef:\n    apiVersion: apps/v1\n    kind: Deployment\n    name: "));
        v.push(TemplatePart::Name);
        v.push(TemplatePart::Text("\n  minReplicas: 1\n  maxReplicas: 3\n  metrics:\n    - type: Resource\n      resource:\n        name: cpu\n        target:\n          type: Utilization\n          averageUtilization: 80\n"));
        assert(v@ =~= seq![TemplatePart::Text("apiVersion: autoscaling/v2\nkind: HorizontalPodAutoscaler\nmetadata:\n  name: "), TemplatePart::Name, TemplatePart::Text("\n  namespace: "), TemplatePart::Namespace, TemplatePart::Text("\nspec:\n  scaleTargetRef:\n    apiVersion: apps/v1\n    kind: Deployment\n    name: "), TemplatePart::Name, TemplatePart::Text("\n  minReplicas: 1\n  maxReplicas: 3\n  metrics:\n    - type: Resource\n      resource:\n        name: cpu\n        target:\n          type: Utilization\n          averageUtilization: 80\n")]);
    } else if str_eq(kind, "PodDisruptionBudget") {
        v.push(TemplatePart::Text("apiVersion: policy/v1\nkind: PodDisruptionBudget\nmetadata:\n  name: "));
        v.push(TemplatePart::Name);
        v.push(TemplatePart::Text("\n  namespace: "));
        v.push(TemplatePart::Namespace);
        v.push(TemplatePart::Text("\nspec:\n  minAvailable: 1\n  selector:\n    matchLabels:\n      app: "));
        v.push(TemplatePart::Name);
        v.push(TemplatePart::Text("\n"));
        assert(v@ =~= seq![TemplatePart::Text("apiVersion: policy/v1\nkind: PodDisruptionBudget\nmetadata:\n  name: "), TemplatePart::Name, TemplatePart::Text("\n  namespace: "), TemplatePart::Namespace, TemplatePart::Text("\nspec:\n  minAvailable: 1\n  selector:\n    matchLabels:\n      app: "), TemplatePart::Name, TemplatePart::Text("\n")]);
    } else if str_eq(kind, "PriorityClass") {
        v.push(TemplatePart::Text("apiVersion: scheduling.k8s.io/v1\nkind: PriorityClass\nmetadata:\n  name: "));
        v.push(TemplatePart::Name);
        v.push(TemplatePart::Text("\nvalue: 1000\nglobalDefault: false\ndescription: Example priority class\n"));
        assert(v@ =~= seq![TemplatePart::Text("apiVersion: scheduling.k8s.io/v1\nkind: PriorityClass\nmetadata:\n  name: "), TemplatePart::Name, TemplatePart::Text("\nvalue: 1000\nglobalDefault: false\ndescription: Example priority class\n")]);
    } else if str_eq(kind, "RuntimeClass") {
        v.push(TemplatePart::Text("apiVersion: node.k8s.io/v1\nkind: RuntimeClass\nmetadata:\n  name: "));
        v.push(TemplatePart::Name);
        v.push(TemplatePart::Text("\nhandler: runc\n"));
        assert(v@ =~= seq![TemplatePart::Text("apiVersion: node.k8s.io/v1\nkind: RuntimeClass\nmetadata:\n  name: "), TemplatePart::Name, TemplatePart::Text("\nhandler: runc\n")]);
    } else if str_eq(kind, "Lease") {
        v.push(TemplatePart::Text("apiVersion: coordination.k8s.io/v1\nkind: Lease\nmetadata:\n  name: "));
        v.push(TemplatePart::Name);
        v.push(TemplatePart::Text("\n  namespace: "));
        v.push(TemplatePart::Namespace);
        v.push(TemplatePart::Text("\nspec:\n  holderIdentity: "));
        v.push(TemplatePart::Name);
        v.push(TemplatePart::Text("\n  leaseDurationSeconds: 30\n"));
        assert(v@ =~= seq![TemplatePart::Text("apiVersion: coordination.k8s.io/v1\nkind: Lease\nmetadata:\n  name: "), TemplatePart::Name, TemplatePart::Text("\n  namespace: "), TemplatePart::Namespace, TemplatePart::Text("\nspec:\n  holderIdentity: "), TemplatePart::Name, TemplatePart::Text("\n  leaseDurationSeconds: 30\n")]);
    } else if str_eq(kind, "ResourceQuota") {
        v.push(TemplatePart::Text("apiVersion: v1\nkind: ResourceQuota\nmetadata:\n  name: "));
        v.push(TemplatePart::Name);
        v.push(TemplatePart::Text("\n  namespace: "));
        v.push(TemplatePart::Namespace);
        v.push(TemplatePart::Text("\nspec:\n  hard:\n    pods: \"10\"\n    requests.cpu: \"2\"\n    requests.memory: 2Gi\n"));
        assert(v@ =~= seq![TemplatePart::Text("apiVersion: v1\nkind: ResourceQuota\nmetadata:\n  name: "), TemplatePart::Name, TemplatePart::Text("\n  namespace: "), TemplatePart::Namespace, TemplatePart::Text("\nspec:\n  hard:\n    pods: \"10\"\n    requests.cpu: \"2\"\n    requests.memory: 2Gi\n")]);
    } else if str_eq(kind, "LimitRange") {
        v.push(TemplatePart::Text("apiVersion: v1\nkind: LimitRange\nmetadata:\n  name: "));
        v.push(TemplatePart::Name);
        v.push(TemplatePart::Text("\n  namespace: "));
        v.push(TemplatePart::Namespace);
        v.push(TemplatePart::Text("\nspec:\n  limits:\n    - type: Container\n      default:\n        cpu: 500m\n        memory: 512Mi\n      defaultRequest:\n        cpu: 100m\n        memory: 128Mi\n"));
        assert(v@ =~= seq![TemplatePart::Text("apiVersion: v1\nkind: LimitRange\nmetadata:\n  name: "), TemplatePart::Name, TemplatePart::Text("\n  namespace: "), TemplatePart::Namespace, TemplatePart::Text("\nspec:\n  limits:\n    - type: Container\n      default:\n        cpu: 500m\n        memory: 512Mi\n      defaultRequest:\n        cpu: 100m\n        memory: 128Mi\n")]);
    } else if str_eq(kind, "Role") || str_eq(kind, "ClusterRole") {
        v.push(TemplatePart::Text("apiVersion: rbac.authorization.k8s.io/v1\nkind: "));
        v.push(TemplatePart::Kind);
        v.push(TemplatePart::Text("\nmetadata:\n  name: "));
        v.push(TemplatePart::Name);
        v.push(TemplatePart::Text("\n"));
        v.push(TemplatePart::NamespaceLine);
        v.push(TemplatePart::Text("rules:\n  - apiGroups: [\"\"]\n    resources: [\"pods\"]\n    verbs: [\"get\", \"list\"]\n"));
        assert(v@ =~= seq![TemplatePart::Text("apiVersion: rbac.authorization.k8s.io/v1\nkind: "), TemplatePart::Kind, TemplatePart::Text("\nmetadata:\n  name: "), TemplatePart::Name, TemplatePart::Text("\n"), TemplatePart::NamespaceLine, TemplatePart::Text("rules:\n  - apiGroups: [\"\"]\n    resources: [\"pods\"]\n    verbs: [\"get\", \"list\"]\n")]);
    } else if str_eq(kind, "RoleBinding") || str_eq(kind, "ClusterRoleBinding") {
        v.push(TemplatePart::Text("apiVersion: rbac.authorization.k8s.io/v1\nkind: "));
        v.push(TemplatePart::Kind);
        v.push(TemplatePart::Text("\nmetadata:\n  name: "));
        v.push(TemplatePart::Name);
        v.push(TemplatePart::Text("\n"));
        v.push(TemplatePart::NamespaceLine);
        v.push(TemplatePart::Text("subjects:\n  - kind: ServiceAccount\n    name: default\n    namespace: "));
        v.push(TemplatePart::Namespace);
        v.push(TemplatePart::Text("\nroleRef:\n  apiGroup: rbac.authorization.k8s.io\n  kind: "));
        v.push(TemplatePart::RoleKind);
        v.push(TemplatePart::Text("\n  name: "));
        v.push(TemplatePart::RoleName);
        v.push(TemplatePart::Text("\n"));
        assert(v@ =~= seq![TemplatePart::Text("apiVersion: rbac.authorization.k8s.io/v1\nkind: "), TemplatePart::Kind, TemplatePart::Text("\nmetadata:\n  name: "), TemplatePart::Name, TemplatePart::Text("\n"), TemplatePart::NamespaceLine, TemplatePart::Text("subjects:\n  - kind: ServiceAccount\n    name: default\n    namespace: "), TemplatePart::Namespace, TemplatePart::Text("\nroleRef:\n  apiGroup: rbac.authorization.k8s.io\n  kind: "), TemplatePart::RoleKind, TemplatePart::Text("\n  name: "), TemplatePart::RoleName, TemplatePart::Text("\n")]);
    } else if str_eq(kind, "CustomResourceDefinition") {
        v.push(TemplatePart::Text("apiVersion: apiextensions.k8s.io/v1\nkind: CustomResourceDefinition\nmetadata:\n  name: examples.miku.io\nspec:\n  group: miku.io\n  scope: Namespaced\n  names:\n    plural: examples\n    singular: example\n    kind: Example\n  versions:\n    - name: v1\n      served: true\n      storage: true\n      schema:\n        openAPIV3Schema:\n          type: object\n"));
        assert(v@ =~= seq![TemplatePart::Text("apiVersion: apiextensions.k8s.io/v1\nkind: CustomResourceDefinition\nmetadata:\n  name: examples.miku.io\nspec:\n  group: miku.io\n  scope: Namespaced\n  names:\n    plural: examples\n    singular: example\n    kind: Example\n  versions:\n    - name: v1\n      served: true\n      storage: true\n      schema:\n        openAPIV3Schema:\n          type: object\n")]);
    } else {
        return None;
    }
    Some(v)
}

/// An id with its underscores turned into dashes.
pub open spec fn dashed(id: Seq<char>) -> Seq<char> {
    id.map_values(|c: char| if c == '_' { '-' } else { c })
}

/// An id with its underscores turned into dashes.
pub fn dashed_id(id: &str) -> (r: String)
    ensures
        r@ == dashed(id@),
{
    let chars = crate::text::chars_of(id);
    let mut out = String::new();
    let mut i: usize = 0;
    while i < chars.len()
        invariant
            i <= chars@.len(),
            chars@ == id@,
            out@ == dashed(id@).take(i as int),
        decreases chars@.len() - i,
    {
        let c = if chars[i] == '_' { '-' } else { chars[i] };
        push_char(&mut out, c);
        assert(out@ =~= dashed(id@).take(i + 1));
        i = i + 1;
    }
    assert(dashed(id@).take(i as int) =~= dashed(id@));
    out
}

/// `example-<id>`, the name of a template's object.
pub open spec fn example_name(id: Seq<char>) -> Seq<char> {
    "example-"@ + dashed(id)
}

/// The texts a panel's templates are filled with.
pub open spec fn fill_spec(metadata: ResourceMetadata, namespace: Seq<char>) -> TemplateFill {
    TemplateFill {
        name: example_name(metadata.id@),
        namespace,
        api_version: metadata.api_version@,
        kind: metadata.kind@,
        namespace_line: namespace_line_spec(metadata.namespaced, namespace),
        role_kind: if metadata.namespaced { "Role"@ } else { "ClusterRole"@ },
        role_name: if metadata.namespaced { example_name(metadata.id@) } else { "view"@ },
    }
}

/// The values a panel's templates are filled with.
pub fn template_values(metadata: &ResourceMetadata, namespace: &str) -> (r: TemplateValues)
    ensures
        r@ == fill_spec(*metadata, namespace@),
{
    let mut name = "example-".to_owned();
    let dashed_name = dashed_id(metadata.id.as_str());
    push_str(&mut name, dashed_name.as_str());
    let role_name = if metadata.namespaced { name.clone() } else { "view".to_owned() };
    TemplateValues {
        namespace: namespace.to_owned(),
        api_version: metadata.api_version.clone(),
        kind: metadata.kind.clone(),
        namespace_line: namespace_line(metadata.namespaced, namespace),
        role_kind: if metadata.namespaced { "Role".to_owned() } else { "ClusterRole".to_owned() },
        role_name,
        name,
    }
}

/// The skeleton for a kind without a built-in example.
pub open spec fn skeleton(namespaced: bool) -> Seq<TemplatePart> {
    if namespaced {
        seq![
            TemplatePart::Text("apiVersion: "),
            TemplatePart::ApiVersion,
            TemplatePart::Text("\nkind: "),
            TemplatePart::Kind,
            TemplatePart::Text("\nmetadata:\n  name: "),
            TemplatePart::Name,
            TemplatePart::Text("\n  namespace: "),
            TemplatePart::Namespace,
            TemplatePart::Text("\n"),
        ]
    } else {
        seq![
            TemplatePart::Text("apiVersion: "),
            TemplatePart::ApiVersion,
            TemplatePart::Text("\nkind: "),
            TemplatePart::Kind,
            TemplatePart::Text("\nmetadata:\n  name: "),
            TemplatePart::Name,
            TemplatePart::Text("\n"),
        ]
    }
}

/// The namespace a template is written for: the given one, else `default`.
pub open spec fn template_namespace(namespace: Option<Seq<char>>) -> Seq<char> {
    match namespace {
        Some(ns) => ns,
        None => "default"@,
    }
}

/// The manifest a create dialog starts with: the kind's built-in example,
/// else a bare skeleton, for the given namespace (`default` without one).
pub open spec fn default_yaml_spec(metadata: ResourceMetadata, namespace: Option<Seq<char>>) -> Seq<char> {
    let v = fill_spec(metadata, template_namespace(namespace));
    match builtin_template(metadata.kind@) {
        Some(parts) => render(parts, v),
        None => render(skeleton(metadata.namespaced), v),
    }
}

/// The manifest a create dialog starts with.
pub fn default_resource_yaml(metadata: ResourceMetadata, namespace: Option<&str>) -> (r: String)
    ensures
        r@ == default_yaml_spec(metadata, crate::json::opt_text(namespace)),
{
    let ns = match namespace {
        Some(n) => n,
        None => "default",
    };
    let values = template_values(&metadata, ns);
    let parts = match builtin_template_of(metadata.kind.as_str()) {
        Some(parts) => parts,
        None => {
            let mut v: Vec<TemplatePart> = Vec::new();
            v.push(TemplatePart::Text("apiVersion: "));
            v.push(TemplatePart::ApiVersion);
            v.push(TemplatePart::Text("\nkind: "));
            v.push(TemplatePart::Kind);
            v.push(TemplatePart::Text("\nmetadata:\n  name: "));
            v.push(TemplatePart::Name);
            if metadata.namespaced {
                v.push(TemplatePart::Text("\n  namespace: "));
                v.push(TemplatePart::Namespace);
            }
            v.push(TemplatePart::Text("\n"));
            assert(v@ =~= skeleton(metadata.namespaced));
            v
        },
    };
    render_template(&parts, &values)
}

/// The cron job create dialog's example, for the given namespace
/// (`default` without one).
pub open spec fn default_cron_job_yaml_spec(namespace: Seq<char>) -> Seq<char> {
    "apiVersion: batch/v1\nkind: CronJob\nmetadata:\n  name: example-cron-job\n  namespace: "@ + namespace
        + "\nspec:\n  schedule: \"*/5 * * * *\"\n  concurrencyPolicy: Forbid\n  successfulJobsHistoryLimit: 3\n  failedJobsHistoryLimit: 1\n  jobTemplate:\n    spec:\n      template:\n        spec:\n          restartPolicy: OnFailure\n          containers:\n            - name: app\n              image: busybox:latest\n              command:\n                - /bin/sh\n                - -c\n                - date\n"@
}

/// The cron job create dialog's example.
pub fn default_cron_job_yaml(namespace: Option<&str>) -> (r: String)
    ensures
        r@ == default_cron_job_yaml_spec(template_namespace(crate::json::opt_text(namespace))),
{
    let ns = match namespace {
        Some(n) => n,
        None => "default",
    };
    let mut s = String::new();
    push_str(&mut s, "apiVersion: batch/v1\nkind: CronJob\nmetadata:\n  name: example-cron-job\n  namespace: ");
    push_str(&mut s, ns);
    push_str(&mut s, "\nspec:\n  schedule: \"*/5 * * * *\"\n  concurrencyPolicy: Forbid\n  successfulJobsHistoryLimit: 3\n  failedJobsHistoryLimit: 1\n  jobTemplate:\n    spec:\n      template:\n        spec:\n          restartPolicy: OnFailure\n          containers:\n            - name: app\n              image: busybox:latest\n              command:\n                - /bin/sh\n                - -c\n                - date\n");
    s
}

} // verus!
