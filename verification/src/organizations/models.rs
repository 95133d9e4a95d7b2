//! Organization records and requests.

use vstd::prelude::*;
use crate::text::clone_text;

verus! {

/// A request to register a new organization together with its first administrator.
#[derive(Debug, Clone)]
pub struct CreateOrganizationRequest {
    pub organization_name: String,
    pub subdomain: String,
    pub admin_first_name: String,
    pub admin_last_name: String,
    pub admin_email: String,
}

/// The identity-provider settings a front end needs to sign users of an organization in.
#[derive(Debug, Clone)]
pub struct Config {
    pub user_pool_id: String,
    pub user_pool_client_id: String,
}

/// The identity-provider ids of a newly registered organization.
#[derive(Debug, Clone)]
pub struct CreateOrganizationResponse {
    pub user_pool_id: String,
    pub user_pool_client_id: String,
}

/// An organization row to insert.
#[derive(Debug, Clone)]
pub struct NewOrganizationDetails {
    pub id: String,
    pub name: String,
    pub subdomain: String,
    pub user_pool_id: Option<String>,
    pub user_pool_client_id: Option<String>,
}

/// A stored organization; `created_at` is in microseconds since the Unix epoch (UTC).
#[derive(Debug, Clone)]
pub struct OrganizationDetails {
    pub id: String,
    pub name: String,
    pub subdomain: String,
    pub user_pool_id: Option<String>,
    pub user_pool_client_id: Option<String>,
    pub created_at: i64,
}

/// The text of an optional text, or the empty text when there is none.
pub open spec fn text_or_empty(t: Option<String>) -> Seq<char> {
    match t {
        Some(s) => s@,
        None => Seq::empty(),
    }
}

fn unwrap_or_empty(t: &Option<String>) -> (s: String)
    ensures
        s@ == text_or_empty(*t),
{
    match t {
        Some(s) => s.clone(),
        None => String::new(),
    }
}

impl Config {
    /// The sign-in settings of an organization; a missing id reads as empty.
    pub fn from_details(details: &OrganizationDetails) -> (c: Config)
        ensures
            c.user_pool_id@ == text_or_empty(details.user_pool_id),
            c.user_pool_client_id@ == text_or_empty(details.user_pool_client_id),
    {
        Config {
            user_pool_id: unwrap_or_empty(&details.user_pool_id),
            user_pool_client_id: unwrap_or_empty(&details.user_pool_client_id),
        }
    }
}

impl CreateOrganizationResponse {
    /// The response for the identity-provider client that was created; `None`
    /// when the client lacks either id.
    pub fn from_client(user_pool_id: Option<String>, client_id: Option<String>) -> (r: Option<CreateOrganizationResponse>)
        ensures
            r is Some <==> user_pool_id is Some && client_id is Some,
            r matches Some(resp) ==> Some(resp.user_pool_id) == user_pool_id && Some(resp.user_pool_client_id) == client_id,
    {
        match (user_pool_id, client_id) {
            (Some(p), Some(c)) => Some(CreateOrganizationResponse { user_pool_id: p, user_pool_client_id: c }),
            _ => None,
        }
    }
}

impl NewOrganizationDetails {
    /// The row for a new organization with the given id, named and reached as
    /// the request says, tied to the identity-provider client that was created.
    pub fn for_request(
        organization_id: &str,
        item: &CreateOrganizationRequest,
        user_pool_id: &Option<String>,
        user_pool_client_id: &Option<String>,
    ) -> (d: NewOrganizationDetails)
        ensures
            d.id@ == organization_id@,
            d.name == item.organization_name,
            d.subdomain == item.subdomain,
            d.user_pool_id == *user_pool_id,
            d.user_pool_client_id == *user_pool_client_id,
    {
        NewOrganizationDetails {
            id: organization_id.to_owned(),
            name: item.organization_name.clone(),
            subdomain: item.subdomain.clone(),
            user_pool_id: clone_text(user_pool_id),
            user_pool_client_id: clone_text(user_pool_client_id),
        }
    }
}

} // verus!
