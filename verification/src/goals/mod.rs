//! Organization goals.

pub mod client;
pub mod models;
