//! Supervision of a sidecar worker process embedded in a desktop application.
//!
//! The library holds the decisions: which handle to terminate, when to spawn,
//! how long to keep probing for readiness, how the storage path is resolved and
//! which launch arguments the worker gets. Spawning, killing, sleeping and the
//! network probe itself are performed by the host, which hands the outcomes back.
pub mod menu;
pub mod poll;
pub mod registry;
pub mod storage;
pub mod supervisor;
