//! Heartbeat-driven session continuity: each heartbeat of a user either
//! continues that user's current session or opens a new one.
pub mod engine;
pub mod history;
pub mod ids;
pub mod signal;
