//! The service that runs beside a camera at a door: it turns the camera's
//! tripwire events into counter rows and sensor rows, and checks the
//! sensors' liveness.

pub mod handler;
pub mod models;
pub mod store;
