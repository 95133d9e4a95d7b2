//! Review records.

use vstd::prelude::*;

verus! {

/// What a review request says about the project, apart from its responses.
#[derive(Debug, Clone)]
pub struct ReviewDetails {
    pub project_name: String,
    pub project_description: String,
    pub project_size: i32,
    pub schema_id: String,
}

/// A review row to insert, apart from its responses; `submitted_at` is in
/// microseconds since the Unix epoch (UTC), absent while the review is only requested.
#[derive(Debug, Clone)]
pub struct NewReview {
    pub id: String,
    pub organization_id: String,
    pub submitted_by: String,
    pub project_name: String,
    pub project_description: String,
    pub project_size: i32,
    pub schema_id: String,
    pub status: String,
    pub original_review_id: Option<String>,
    pub submitted_at: Option<i64>,
}

} // verus!
