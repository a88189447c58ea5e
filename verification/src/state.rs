//! Mutable state containers: pool, tick and position entities together with
//! the administrative configuration they reference. Each container exposes
//! only narrow "apply a pre-computed update" mutators; no business logic is
//! recomputed inside a mutator.

pub mod config;
pub mod fee_tier;
pub mod pool;
pub mod position;
pub mod tick;
