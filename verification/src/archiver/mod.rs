//! EPICS Archiver Appliance interface: request validation, error model,
//! data types and operators, caches and metrics.

pub mod error;
pub mod types;
pub mod validation;
pub mod constants;
pub mod client;
pub mod metrics;
pub mod cache;
pub mod session;
pub mod api;
pub mod health;
pub mod commands;
