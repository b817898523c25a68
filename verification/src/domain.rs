//! Domain layer: pure types, rules and ports.

pub mod agent;
pub mod cache;
pub mod context;
pub mod error;
pub mod orchestrator;
pub mod policy;
pub mod secrets;
pub mod task;
pub mod token;
pub mod tool;
