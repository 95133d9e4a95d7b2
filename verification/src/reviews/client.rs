//! Decisions of the review handlers.

use vstd::prelude::*;
use crate::errors::ServiceError;
use crate::ids::{is_uuid_text, new_id};
use crate::reviews::models::{NewReview, ReviewDetails};
use crate::text::str_eq;
use crate::user::models::{CurrentUser, User};

verus! {

/// The status of a review its author has submitted.
pub open spec fn submitted_status() -> Seq<char> {
    "SUBMITTED"@
}

/// The status of a review that has been requested but not yet written.
pub open spec fn requested_status() -> Seq<char> {
    "REQUESTED"@
}

/// The schema of the manager's review that goes with an employee's review schema.
pub open spec fn manager_schema(schema_id: Seq<char>) -> Seq<char> {
    if schema_id == "endproj"@ {
        "endproj_manager"@
    } else if schema_id == "midproj"@ {
        "midproj_manager"@
    } else if schema_id == "ongoing"@ {
        "ongoing_manager"@
    } else {
        "Unknown"@
    }
}

/// The schema of the manager's review that goes with an employee's review schema.
pub fn get_manager_schema_id(direct_report_schema_id: &str) -> (s: String)
    ensures
        s@ == manager_schema(direct_report_schema_id@),
{
    if str_eq(direct_report_schema_id, "endproj") {
        "endproj_manager".to_owned()
    } else if str_eq(direct_report_schema_id, "midproj") {
        "midproj_manager".to_owned()
    } else if str_eq(direct_report_schema_id, "ongoing") {
        "ongoing_manager".to_owned()
    } else {
        "Unknown".to_owned()
    }
}

/// The indices, among the first `n` reviews, of those whose status is `status`, in order.
pub open spec fn indices_with_status(statuses: Seq<String>, status: Seq<char>, n: int) -> Seq<usize>
    decreases n,
{
    if n <= 0 {
        Seq::empty()
    } else if statuses[n - 1]@ == status {
        indices_with_status(statuses, status, n - 1).push((n - 1) as usize)
    } else {
        indices_with_status(statuses, status, n - 1)
    }
}

/// A user's reviews split by status, as indices into the list of reviews.
#[derive(Debug, Clone)]
pub struct ReviewPartition {
    /// The submitted reviews.
    pub completed: Vec<usize>,
    /// The requested reviews.
    pub requested: Vec<usize>,
}

/// Splits reviews, given by their statuses, into the submitted and the
/// requested ones, each in their original order; reviews of any other status
/// are left out of both.
pub fn partition_reviews(statuses: &Vec<String>) -> (p: ReviewPartition)
    ensures
        p.completed@ == indices_with_status(statuses@, submitted_status(), statuses@.len() as int),
        p.requested@ == indices_with_status(statuses@, requested_status(), statuses@.len() as int),
{
    let mut completed: Vec<usize> = Vec::new();
    let mut requested: Vec<usize> = Vec::new();
    let mut i: usize = 0;
    while i < statuses.len()
        invariant
            i <= statuses@.len(),
            completed@ == indices_with_status(statuses@, submitted_status(), i as int),
            requested@ == indices_with_status(statuses@, requested_status(), i as int),
        decreases statuses.len() - i,
    {
        if str_eq(statuses[i].as_str(), "SUBMITTED") {
            completed.push(i);
        } else if str_eq(statuses[i].as_str(), "REQUESTED") {
            requested.push(i);
        }
        proof {
            reveal_strlit("SUBMITTED");
            reveal_strlit("REQUESTED");
            assert("SUBMITTED"@[0] != "REQUESTED"@[0]);
        }
        i = i + 1;
    }
    ReviewPartition { completed, requested }
}

/// Whether `user_id` may read a review submitted by `submitted_by`: only its author may.
pub fn may_view_review(submitted_by: &str, user_id: &str) -> (b: bool)
    ensures
        b == (submitted_by@ == user_id@),
{
    str_eq(submitted_by, user_id)
}

/// The review the current user submits: a fresh id, written by the current
/// user in their organization, submitted at `submitted_at`. `None` while the
/// user is being masqueraded, as nobody may write reviews for someone else.
pub fn submitted_review(current: &CurrentUser, details: &ReviewDetails, submitted_at: i64) -> (r: Option<NewReview>)
    ensures
        r is None <==> current.masquerading_user_id is Some,
        r matches Some(rev) ==> {
            &&& is_uuid_text(rev.id@)
            &&& rev.organization_id == current.organization_id
            &&& rev.submitted_by == current.id
            &&& rev.project_name == details.project_name
            &&& rev.project_description == details.project_description
            &&& rev.project_size == details.project_size
            &&& rev.schema_id == details.schema_id
            &&& rev.status@ == submitted_status()
            &&& rev.original_review_id is None
            &&& rev.submitted_at == Some(submitted_at)
        },
{
    if current.masquerading_user_id.is_some() {
        return None;
    }
    Some(NewReview {
        id: new_id(),
        organization_id: current.organization_id.clone(),
        submitted_by: current.id.clone(),
        project_name: details.project_name.clone(),
        project_description: details.project_description.clone(),
        project_size: details.project_size,
        schema_id: details.schema_id.clone(),
        status: "SUBMITTED".to_owned(),
        original_review_id: None,
        submitted_at: Some(submitted_at),
    })
}

/// The review requested from the manager of `employee` for the employee's
/// review `original_review_id`: a fresh id, to be written by the manager with
/// the manager's schema for the employee's schema, not yet submitted. A bad
/// request when the employee has no manager.
pub fn manager_review_request(
    employee: &User,
    organization_id: &str,
    original_review_id: &str,
    details: &ReviewDetails,
) -> (r: Result<NewReview, ServiceError>)
    ensures
        r is Err <==> employee.manager_id is None,
        r matches Err(e) ==> e matches ServiceError::BadRequest(m) && m@ == "No manager found for user"@,
        r matches Ok(rev) ==> {
            &&& is_uuid_text(rev.id@)
            &&& rev.organization_id@ == organization_id@
            &&& Some(rev.submitted_by) == employee.manager_id
            &&& rev.project_name == details.project_name
            &&& rev.project_description == details.project_description
            &&& rev.project_size == details.project_size
            &&& rev.schema_id@ == manager_schema(details.schema_id@)
            &&& rev.status@ == requested_status()
            &&& rev.original_review_id matches Some(o) && o@ == original_review_id@
            &&& rev.submitted_at is None
        },
{
    match &employee.manager_id {
        None => Err(ServiceError::BadRequest("No manager found for user".to_owned())),
        Some(manager_id) => Ok(NewReview {
            id: new_id(),
            organization_id: organization_id.to_owned(),
            submitted_by: manager_id.clone(),
            project_name: details.project_name.clone(),
            project_description: details.project_description.clone(),
            project_size: details.project_size,
            schema_id: get_manager_schema_id(details.schema_id.as_str()),
            status: "REQUESTED".to_owned(),
            original_review_id: Some(original_review_id.to_owned()),
            submitted_at: None,
        }),
    }
}

} // verus!
