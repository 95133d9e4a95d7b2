//! Users: their records, roles and the requests that create and change them.

pub mod client;
pub mod models;
