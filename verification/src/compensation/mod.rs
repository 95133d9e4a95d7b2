//! Compensation: uploaded pay data, its amounts in cents, and pay bands.

pub mod client;
pub mod money;
