//! Application layer: the services that coordinate the domain ports.

pub mod aggregator;
pub mod circuit_breaker;
pub mod context_service;
pub mod keyed;
pub mod orchestrator_service;
pub mod planner;
pub mod router;
