//! Watches a fixed set of users and announces each one's entry into a target
//! voice channel with a short clip: join, play, leave.
//!
//! The library holds the decisions and proves them; the program around it
//! does the polling, sleeping and talking to the platform. `watcher` is the
//! state machine of one user, `session` the lock on the shared voice session,
//! `orchestrator` the set of all watchers of a community, and `laws` what
//! holds of them together.

pub mod laws;
pub mod model;
pub mod orchestrator;
pub mod session;
pub mod watcher;
