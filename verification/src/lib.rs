//! Verified core of the people-counter service: the records that flow
//! between the door cameras, the database and the dashboard, the health
//! checks over them, and the small text rules the services apply.
//!
//! `device` holds the service that runs beside a camera; the other modules
//! hold what the dashboard and the device share.

pub mod clock;
pub mod device;
pub mod handler;
pub mod models;
pub mod store;
pub mod text;
