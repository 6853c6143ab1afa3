# miku_ui

The decision-making core of the Miku Kubernetes desktop client, written in
Verus and proved against its contracts.

## Layout

- `src/` — the verified library:
  - `resource_panel/` — the resource panels: row extraction from manifests,
    table order, search, selection, the request bookkeeping that drops stale
    answers, action results, describe views, default manifests and the
    checks made before applying one.
  - `workspace.rs`, `cluster_panels.rs` — which panels of a cluster's
    workspace take an answer, each cluster's panels, and the delivery of
    answers to them.
  - `yaml.rs` — manifests as YAML: the parse of what the create and edit
    dialogs send (through `serde_yaml`) and the text the view and edit
    dialogs show.
  - `clusters.rs`, `navigation.rs`, `forms.rs` — the cluster list, each
    cluster's connection state, the selected cluster and its workspace tabs,
    and the new cluster form.
  - `status.rs` — the status bar's connection summary.
  - `json.rs`, `time.rs`, `text.rs`, `keyed.rs` — the JSON model, RFC 3339
    timestamps and ages, text helpers, and lists keyed by text.
- `tests/` — tests of the library on concrete values.
- `app/` — ordinary Rust around the library: copies of answers that
  several panels take, the clock, reading kubeconfig files, and the glue
  that hands the services' answers to the library.

Laws that span several operations are public proof functions whose names
start with `law_`.
