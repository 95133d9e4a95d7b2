//! Verified core of the Pago people-management backend: the decisions, record
//! building and text handling that the HTTP handlers rely on.

pub mod attributes;
pub mod auth;
pub mod compensation;
pub mod errors;
pub mod file_uploads;
pub mod goals;
pub mod ids;
pub mod organizations;
pub mod reviews;
pub mod scoring;
pub mod sns_subscriber;
pub mod text;
pub mod user;
