//! The device keeps failed uploads in the same store as the dashboard.

pub use crate::store::Record;
