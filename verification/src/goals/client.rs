//! Decisions of the goal handlers.

use vstd::prelude::*;
use crate::goals::models::{CreateGoalRequest, InsertOrganizationGoal};
use crate::ids::{is_uuid_text, new_id};

verus! {

/// The status a goal is created with.
pub const NEW_GOAL_STATUS: i32 = 1;

/// The row for a new goal of the organization: a fresh id, the requested name
/// and description, and the initial status.
pub fn new_goal(organization_id: &str, req: &CreateGoalRequest) -> (g: InsertOrganizationGoal)
    ensures
        is_uuid_text(g.id@),
        g.organization_id@ == organization_id@,
        g.name == req.name,
        g.description == req.description,
        g.status == NEW_GOAL_STATUS,
{
    InsertOrganizationGoal {
        id: new_id(),
        organization_id: organization_id.to_owned(),
        name: req.name.clone(),
        description: req.description.clone(),
        status: NEW_GOAL_STATUS,
    }
}

} // verus!
