//! Decisions behind the device's HTTP endpoints.

pub mod assets;
pub mod health;
