//! User records, roles and requests.

use vstd::prelude::*;
use crate::text::{clone_text, str_eq};

verus! {

/// The role of a user within an organization.
#[derive(Debug, Clone, Copy, PartialEq, Eq, Structural)]
pub enum UserRole {
    User,
    Admin,
    SystemAdmin,
}

/// The text a role is shown as (its display form).
pub open spec fn role_display(role: UserRole) -> Seq<char> {
    match role {
        UserRole::User => "User"@,
        UserRole::Admin => "Admin"@,
        UserRole::SystemAdmin => "System Admin"@,
    }
}

/// The role that a stored role text names; unrecognized text reads as `User`.
pub open spec fn role_named(text: Seq<char>) -> UserRole {
    if text == "User"@ {
        UserRole::User
    } else if text == "Admin"@ {
        UserRole::Admin
    } else if text == "SystemAdmin"@ {
        UserRole::SystemAdmin
    } else {
        UserRole::User
    }
}

/// Whether a role may administer its organization.
pub open spec fn spec_is_admin(role: UserRole) -> bool {
    role == UserRole::Admin || role == UserRole::SystemAdmin
}

impl UserRole {
    /// The display text of the role.
    pub fn to_display_string(&self) -> (s: String)
        ensures
            s@ == role_display(*self),
    {
        match self {
            UserRole::User => "User".to_owned(),
            UserRole::Admin => "Admin".to_owned(),
            UserRole::SystemAdmin => "System Admin".to_owned(),
        }
    }

    /// Whether the role may administer its organization.
    pub fn is_admin(&self) -> (b: bool)
        ensures
            b == spec_is_admin(*self),
    {
        *self == UserRole::Admin || *self == UserRole::SystemAdmin
    }

    /// The role named by a stored role text; unrecognized text reads as `User`.
    pub fn from_text(text: &str) -> (role: UserRole)
        ensures
            role == role_named(text@),
    {
        if str_eq(text, "User") {
            UserRole::User
        } else if str_eq(text, "Admin") {
            UserRole::Admin
        } else if str_eq(text, "SystemAdmin") {
            UserRole::SystemAdmin
        } else {
            UserRole::User
        }
    }
}

impl From<String> for UserRole {
    fn from(text: String) -> (role: UserRole) {
        UserRole::from_text(text.as_str())
    }
}

impl vstd::std_specs::convert::FromSpecImpl<String> for UserRole {
    open spec fn obeys_from_spec() -> bool {
        true
    }

    open spec fn from_spec(text: String) -> UserRole {
        role_named(text@)
    }
}

/// Reading back the display text of a role gives the role again, for every
/// role but `SystemAdmin` (whose display text "System Admin" reads as `User`).
pub proof fn lemma_role_text_round_trip(role: UserRole)
    requires
        role != UserRole::SystemAdmin,
    ensures
        role_named(role_display(role)) == role,
{
    reveal_strlit("User");
    reveal_strlit("Admin");
    assert("Admin"@.len() != "User"@.len());
}

/// A request from an administrator to add a user to their organization.
#[derive(Debug, Clone)]
pub struct AddUserRequest {
    pub email: String,
    pub first_name: String,
    pub last_name: String,
    pub role: UserRole,
}

/// A request to change some of the details of a user.
#[derive(Debug, Clone)]
pub struct UpdateUserRequest {
    pub id: String,
    pub email: Option<String>,
    pub first_name: Option<String>,
    pub last_name: Option<String>,
    pub user_role: Option<UserRole>,
}

/// The change to a stored user row that an [`UpdateUserRequest`] asks for.
#[derive(Debug, Clone)]
pub struct UpdateDbUserRequest {
    pub id: String,
    pub email: Option<String>,
    pub first_name: Option<String>,
    pub last_name: Option<String>,
    pub role: Option<String>,
}

/// Everything needed to create a user in the identity provider and the database.
#[derive(Debug, Clone)]
pub struct CreateUserRequest {
    pub user_pool_id: String,
    pub email: String,
    pub organization_id: String,
    pub first_name: String,
    pub last_name: String,
    pub role: UserRole,
    pub title: Option<String>,
    pub manager_id: Option<String>,
}

/// A stored user; `created_at` is in microseconds since the Unix epoch (UTC).
#[derive(Debug, Clone)]
pub struct User {
    pub id: String,
    pub first_name: String,
    pub last_name: String,
    pub email: String,
    pub organization_id: String,
    pub role: String,
    pub title: Option<String>,
    pub manager_id: Option<String>,
    pub created_at: i64,
}

/// A user as the identity provider knows them.
#[derive(Debug, Clone)]
pub struct CognitoUser {
    pub sub: String,
    pub given_name: String,
    pub family_name: String,
    pub email: String,
    pub organization_id: String,
    pub role: String,
}

/// The user a request acts as. When `masquerading_user_id` is set, the user
/// with that id is acting as the user described by the other fields.
#[derive(Debug, Clone)]
pub struct CurrentUser {
    pub id: String,
    pub first_name: String,
    pub last_name: String,
    pub email: String,
    pub organization_id: String,
    pub role: UserRole,
    pub masquerading_user_id: Option<String>,
}

/// A user row to insert.
#[derive(Debug, Clone)]
pub struct NewUser {
    pub id: String,
    pub first_name: String,
    pub last_name: String,
    pub email: String,
    pub organization_id: String,
    pub role: String,
    pub title: Option<String>,
    pub manager_id: Option<String>,
}

impl UpdateUserRequest {
    /// The database change for this request: the same fields, with the role
    /// stored as its display text.
    pub fn into(self) -> (r: UpdateDbUserRequest)
        ensures
            r.id == self.id,
            r.email == self.email,
            r.first_name == self.first_name,
            r.last_name == self.last_name,
            self.user_role is None ==> r.role is None,
            self.user_role matches Some(role) ==> r.role matches Some(text) && text@ == role_display(role),
    {
        let role = match self.user_role {
            Some(role) => Some(role.to_display_string()),
            None => None,
        };
        UpdateDbUserRequest {
            id: self.id,
            email: self.email,
            first_name: self.first_name,
            last_name: self.last_name,
            role,
        }
    }
}

impl NewUser {
    /// The row for a user created from `req`, whose identity-provider id is `sub`;
    /// the role is stored as its display text.
    pub fn for_request(req: &CreateUserRequest, sub: &str) -> (u: NewUser)
        ensures
            u.id@ == sub@,
            u.first_name == req.first_name,
            u.last_name == req.last_name,
            u.email == req.email,
            u.organization_id == req.organization_id,
            u.role@ == role_display(req.role),
            u.title == req.title,
            u.manager_id == req.manager_id,
    {
        NewUser {
            id: sub.to_owned(),
            first_name: req.first_name.clone(),
            last_name: req.last_name.clone(),
            email: req.email.clone(),
            organization_id: req.organization_id.clone(),
            role: req.role.to_display_string(),
            title: clone_text(&req.title),
            manager_id: clone_text(&req.manager_id),
        }
    }
}

} // verus!
