//! Home Assistant adapter: the decisions behind the deploy-lifecycle tools
//! (install, update, backup, restore) and the request shapes of the REST
//! client, stated and proved with Verus.
//!
//! Everything that touches the host (spawning `docker`, `pct`, `tar`,
//! probing the file system, speaking HTTP) is left to the caller; this crate
//! decides what to run, in which order, and what the outcome means.

pub mod text;
pub mod error;
pub mod plan;
pub mod lifecycle;
pub mod session;
pub mod client;
