//! Scoring of reviews and employees.

pub mod client;
pub mod review_scoring;
