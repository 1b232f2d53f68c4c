//! Supervision of the backend server process of a desktop application.
//!
//! The library decides; it performs no input or output of its own. `config`
//! resolves the three overridable parameters of the backend, `launcher`
//! describes the process to start, and `supervisor` is the single guarded slot
//! that owns the handle of the running process between startup and shutdown.

pub mod config;
pub mod launcher;
pub mod supervisor;
