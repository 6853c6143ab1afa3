//! Verified core of the Miku Kubernetes desktop client: cluster forms,
//! timestamp arithmetic, JSON manifest navigation, and the resource panels'
//! row extraction, filtering, ordering and event handling.

pub mod cluster_panels;
pub mod clusters;
pub mod forms;
pub mod keyed;
pub mod navigation;
pub mod text;
pub mod time;
pub mod json;
pub mod resource_panel;
pub mod status;
pub mod workspace;
pub mod yaml;
