//! On-host agent that drives operating-system updates: it asks an update
//! graph for the next release, stages it through the local update backend
//! and finalizes it once the fleet's reboot policy allows.
//!
//! The crate holds the decisions of that agent. Network and IPC calls are
//! made by the embedding program, which hands their outcomes back.

pub mod cincinnati;
pub mod config;
pub mod decimal;
pub mod finalize;
pub mod rpm_ostree;
pub mod runtime_state;
pub mod strategy;
pub mod trusted;
pub mod update_agent;
pub mod url_text;
