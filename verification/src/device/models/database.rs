//! What the device needs to reach the database.

use vstd::prelude::*;

verus! {

/// Where the database lives, how to authenticate, and which tables to use.
pub struct Credentials {
    pub url: String,
    pub secret: String,
    pub count_table: String,
    pub sensor_table: String,
}

} // verus!
