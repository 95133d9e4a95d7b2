//! Goal records and requests.

use vstd::prelude::*;

verus! {

/// A stored goal; `created_at` is in microseconds since the Unix epoch (UTC).
#[derive(Debug, Clone)]
pub struct OrganizationGoal {
    pub id: String,
    pub organization_id: String,
    pub name: String,
    pub description: String,
    pub status: i32,
    pub created_at: i64,
}

/// A goal row to insert.
#[derive(Debug, Clone)]
pub struct InsertOrganizationGoal {
    pub id: String,
    pub organization_id: String,
    pub name: String,
    pub description: String,
    pub status: i32,
}

/// A request to add a goal to the requester's organization.
#[derive(Debug, Clone)]
pub struct CreateGoalRequest {
    pub name: String,
    pub description: String,
}

} // verus!
