//! Project reviews: self reviews by employees and the review requests they raise for their managers.

pub mod client;
pub mod models;
