//! Decisions behind the dashboard's HTTP endpoints.

pub mod assets;
pub mod count;
pub mod health;
