//! Spending limits: the check of a charge against an outside limits provider.

pub mod circuit_breaker;
pub mod config;
pub mod decision;
pub mod metrics;
pub mod mypeach;
pub mod types;
pub mod wiring;
