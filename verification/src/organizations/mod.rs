//! Organizations (tenants): their records and the identity-provider client each one gets.

pub mod client;
pub mod models;
