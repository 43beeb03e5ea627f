//! A client-side mirror of a smart-home bridge's resources: a cache kept in
//! step with the bridge by full snapshots and by pushed events, the
//! commands that are written back, and the resource schema.
//!
//! The cache engine: `json` (documents and merge patch), `resource` (kinds
//! and identifiers), `cache` (the store), `event` and `reconcile` (applying
//! snapshots and events), `sync` (the synchronisers' decisions), `laws`
//! (what holds across calls), `api` (what a reply of the bridge yields) and
//! `command` (write documents).
pub mod json;
pub mod resource;
pub mod cache;
pub mod event;
pub mod reconcile;
pub mod sync;
pub mod laws;
pub mod api;
pub mod command;
pub mod scene_command;
pub mod bridge;
pub mod behavior;
pub mod control;
pub mod device;
pub mod entertainment;
pub mod group;
pub mod light;
pub mod scene;
pub mod sensor;
pub mod thirdparty;
pub mod zigbee;
pub mod zone;
