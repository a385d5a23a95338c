//! Idle-aware game-server front-end manager: derives per-group proxy
//! configuration from workload metadata, supervises one proxy process per
//! group, reclassifies their log output, and reacts to failure phrases by
//! forcing corrective lifecycle actions through a uniform backend interface.

pub mod adapter;
pub mod backend;
pub mod config;
pub mod discovery;
pub mod entrypoint;
pub mod health;
pub mod metadata;
pub mod text;
pub mod version;
