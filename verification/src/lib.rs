//! Verified core of the OmniShell orchestrator: the domain types and the
//! decision logic of its application services (budgets, context windows,
//! routing, aggregation, circuit breaking, planning and the request pipeline).

pub mod application;
pub mod domain;
pub mod text;
