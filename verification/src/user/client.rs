//! Decisions of the user handlers: which identity-provider attributes to
//! write, how a request's acting user is determined, and how uploaded user
//! rows are handled.

use vstd::prelude::*;
use crate::attributes::{Attribute, attribute_text, get_attribute_text, has_identity, identity_texts};
use crate::auth::Claims;
use crate::text::{clone_text, str_eq};
use crate::user::models::{
    AddUserRequest, CognitoUser, CreateUserRequest, CurrentUser, UpdateUserRequest, User, UserRole, role_display,
    role_named, spec_is_admin,
};

verus! {

/// A row of an organization's user file.
#[derive(Debug, Clone)]
pub struct Row {
    pub email: String,
    pub first_name: String,
    pub last_name: String,
    pub title: Option<String>,
    pub manager_email: Option<String>,
}

/// The request that creates the user described by an uploaded row: an ordinary
/// user of the organization, with the row's title and no manager yet.
pub fn get_create_user_request(row: &Row, organization_id: String, user_pool_id: String) -> (r: CreateUserRequest)
    ensures
        r.user_pool_id == user_pool_id,
        r.organization_id == organization_id,
        r.email == row.email,
        r.first_name == row.first_name,
        r.last_name == row.last_name,
        r.role == UserRole::User,
        r.title == row.title,
        r.manager_id is None,
{
    CreateUserRequest {
        user_pool_id,
        organization_id,
        email: row.email.clone(),
        first_name: row.first_name.clone(),
        last_name: row.last_name.clone(),
        role: UserRole::User,
        title: clone_text(&row.title),
        manager_id: None,
    }
}

/// Whether the attribute at index `i` is named `name` and carries the text `value`.
pub open spec fn attribute_is(attrs: Seq<Attribute>, i: int, name: Seq<char>, value: Seq<char>) -> bool {
    &&& attrs[i].name@ == name
    &&& attrs[i].value matches Some(v) && v@ == value
}

/// The identity-provider attributes of a new user: email, role (its display
/// text), tenant (the organization), given name and family name, in that order.
pub fn cognito_create_attributes(req: &CreateUserRequest) -> (r: Vec<Attribute>)
    ensures
        r@.len() == 5,
        attribute_is(r@, 0, "email"@, req.email@),
        attribute_is(r@, 1, "custom:userRole"@, role_display(req.role)),
        attribute_is(r@, 2, "custom:tenantId"@, req.organization_id@),
        attribute_is(r@, 3, "given_name"@, req.first_name@),
        attribute_is(r@, 4, "family_name"@, req.last_name@),
{
    let mut r: Vec<Attribute> = Vec::new();
    r.push(Attribute::with_text("email", req.email.clone()));
    r.push(Attribute::with_text("custom:userRole", req.role.to_display_string()));
    r.push(Attribute::with_text("custom:tenantId", req.organization_id.clone()));
    r.push(Attribute::with_text("given_name", req.first_name.clone()));
    r.push(Attribute::with_text("family_name", req.last_name.clone()));
    r
}

/// The (name, text) pairs an update writes to the identity provider: email,
/// given name, family name and role (its display text), each only when the
/// request sets it, in that order.
pub open spec fn update_attribute_pairs(req: UpdateUserRequest) -> Seq<(Seq<char>, Seq<char>)> {
    match req.user_role {
        Some(role) => update_pairs_through_last_name(req).push(("custom:userRole"@, role_display(role))),
        None => update_pairs_through_last_name(req),
    }
}

/// The pairs for the email alone.
pub open spec fn update_pairs_email(req: UpdateUserRequest) -> Seq<(Seq<char>, Seq<char>)> {
    match req.email {
        Some(e) => seq![("email"@, e@)],
        None => seq![],
    }
}

/// The pairs for the email and the given name.
pub open spec fn update_pairs_through_first_name(req: UpdateUserRequest) -> Seq<(Seq<char>, Seq<char>)> {
    match req.first_name {
        Some(f) => update_pairs_email(req).push(("given_name"@, f@)),
        None => update_pairs_email(req),
    }
}

/// The pairs for the email and both names.
pub open spec fn update_pairs_through_last_name(req: UpdateUserRequest) -> Seq<(Seq<char>, Seq<char>)> {
    match req.last_name {
        Some(l) => update_pairs_through_first_name(req).push(("family_name"@, l@)),
        None => update_pairs_through_first_name(req),
    }
}

/// An update writes exactly the details it sets: each set detail under its
/// own attribute name (email, given name, family name, role as its display
/// text), and every attribute written carries the detail of its name.
pub proof fn lemma_update_pairs_match_request(req: UpdateUserRequest)
    ensures
        req.email matches Some(e) ==> exists|i: int|
            0 <= i < update_attribute_pairs(req).len() && #[trigger] update_attribute_pairs(req)[i] == ("email"@, e@),
        req.first_name matches Some(f) ==> exists|i: int|
            0 <= i < update_attribute_pairs(req).len() && #[trigger] update_attribute_pairs(req)[i] == ("given_name"@, f@),
        req.last_name matches Some(l) ==> exists|i: int|
            0 <= i < update_attribute_pairs(req).len() && #[trigger] update_attribute_pairs(req)[i] == ("family_name"@, l@),
        req.user_role matches Some(r) ==> exists|i: int|
            0 <= i < update_attribute_pairs(req).len() && #[trigger] update_attribute_pairs(req)[i] == (
                "custom:userRole"@,
                role_display(r),
            ),
        forall|i: int|
            0 <= i < update_attribute_pairs(req).len() ==> {
                let q = #[trigger] update_attribute_pairs(req)[i];
                ||| (q.0 == "email"@ && (req.email matches Some(e) && q.1 == e@))
                ||| (q.0 == "given_name"@ && (req.first_name matches Some(f) && q.1 == f@))
                ||| (q.0 == "family_name"@ && (req.last_name matches Some(l) && q.1 == l@))
                ||| (q.0 == "custom:userRole"@ && (req.user_role matches Some(r) && q.1 == role_display(r)))
            },
{
    let s1 = update_pairs_email(req);
    let s2 = update_pairs_through_first_name(req);
    let s3 = update_pairs_through_last_name(req);
    let p = update_attribute_pairs(req);
    if let Some(e) = req.email {
        assert(p[0] == ("email"@, e@));
    }
    if let Some(f) = req.first_name {
        assert(p[s1.len() as int] == ("given_name"@, f@));
    }
    if let Some(l) = req.last_name {
        assert(p[s2.len() as int] == ("family_name"@, l@));
    }
    if let Some(r) = req.user_role {
        assert(p[s3.len() as int] == ("custom:userRole"@, role_display(r)));
    }
}

/// The identity-provider attributes an update writes; an empty list means the
/// identity provider is left untouched.
pub fn cognito_update_attributes(req: &UpdateUserRequest) -> (r: Vec<Attribute>)
    ensures
        r@.len() == update_attribute_pairs(*req).len(),
        forall|i: int|
            0 <= i < r@.len() ==> attribute_is(
                r@,
                i,
                (#[trigger] update_attribute_pairs(*req)[i]).0,
                update_attribute_pairs(*req)[i].1,
            ),
        r@.len() == 0 <==> (req.email is None && req.first_name is None && req.last_name is None
            && req.user_role is None),
        req.email matches Some(e) ==> exists|i: int| 0 <= i < r@.len() && #[trigger] attribute_is(r@, i, "email"@, e@),
        req.first_name matches Some(f) ==> exists|i: int|
            0 <= i < r@.len() && #[trigger] attribute_is(r@, i, "given_name"@, f@),
        req.last_name matches Some(l) ==> exists|i: int|
            0 <= i < r@.len() && #[trigger] attribute_is(r@, i, "family_name"@, l@),
        req.user_role matches Some(role) ==> exists|i: int|
            0 <= i < r@.len() && #[trigger] attribute_is(r@, i, "custom:userRole"@, role_display(role)),
{
    let mut r: Vec<Attribute> = Vec::new();
    let ghost s1 = update_pairs_email(*req);
    let ghost s2 = update_pairs_through_first_name(*req);
    let ghost s3 = update_pairs_through_last_name(*req);
    match &req.email {
        Some(e) => r.push(Attribute::with_text("email", e.clone())),
        None => {},
    }
    assert(r@.len() == s1.len() && forall|i: int| 0 <= i < r@.len() ==> attribute_is(r@, i, s1[i].0, s1[i].1));
    match &req.first_name {
        Some(f) => r.push(Attribute::with_text("given_name", f.clone())),
        None => {},
    }
    assert(r@.len() == s2.len() && forall|i: int| 0 <= i < r@.len() ==> attribute_is(r@, i, s2[i].0, s2[i].1));
    match &req.last_name {
        Some(l) => r.push(Attribute::with_text("family_name", l.clone())),
        None => {},
    }
    assert(r@.len() == s3.len() && forall|i: int| 0 <= i < r@.len() ==> attribute_is(r@, i, s3[i].0, s3[i].1));
    match &req.user_role {
        Some(role) => r.push(Attribute::with_text("custom:userRole", role.to_display_string())),
        None => {},
    }
    proof {
        lemma_update_pairs_match_request(*req);
        let p = update_attribute_pairs(*req);
        if let Some(e) = &req.email {
            let i = choose|i: int| 0 <= i < p.len() && #[trigger] p[i] == ("email"@, e@);
            assert(attribute_is(r@, i, p[i].0, p[i].1));
        }
        if let Some(f) = &req.first_name {
            let i = choose|i: int| 0 <= i < p.len() && #[trigger] p[i] == ("given_name"@, f@);
            assert(attribute_is(r@, i, p[i].0, p[i].1));
        }
        if let Some(l) = &req.last_name {
            let i = choose|i: int| 0 <= i < p.len() && #[trigger] p[i] == ("family_name"@, l@);
            assert(attribute_is(r@, i, p[i].0, p[i].1));
        }
        if let Some(role) = &req.user_role {
            let i = choose|i: int| 0 <= i < p.len() && #[trigger] p[i] == ("custom:userRole"@, role_display(*role));
            assert(attribute_is(r@, i, p[i].0, p[i].1));
        }
    }
    r
}

/// The identity-provider id of a newly created user: the text of its `sub` attribute.
pub fn created_user_id(attributes: &Vec<Attribute>) -> (r: Option<String>)
    ensures
        r is Some <==> attribute_text(attributes@, "sub"@) is Some,
        r matches Some(s) ==> attribute_text(attributes@, "sub"@) == Some(s@),
{
    get_attribute_text(attributes, "sub")
}

impl CognitoUser {
    /// The user described by identity-provider attributes: `sub`, `given_name`,
    /// `family_name`, `email`, `custom:tenantId` and `custom:userRole`. `None`
    /// when one of them is missing or has no text.
    pub fn from_attributes(attributes: &Vec<Attribute>) -> (r: Option<CognitoUser>)
        ensures
            r is Some <==> has_identity(attributes@),
            r matches Some(u) ==> {
                &&& attribute_text(attributes@, "sub"@) == Some(u.sub@)
                &&& attribute_text(attributes@, "given_name"@) == Some(u.given_name@)
                &&& attribute_text(attributes@, "family_name"@) == Some(u.family_name@)
                &&& attribute_text(attributes@, "email"@) == Some(u.email@)
                &&& attribute_text(attributes@, "custom:tenantId"@) == Some(u.organization_id@)
                &&& attribute_text(attributes@, "custom:userRole"@) == Some(u.role@)
            },
    {
        match identity_texts(attributes) {
            Some((sub, given_name, family_name, email, organization_id, role)) => Some(
                CognitoUser { sub, given_name, family_name, email, organization_id, role },
            ),
            None => None,
        }
    }
}

/// The user a validated token acts for: the token's subject, names, email and
/// organization, with the role its role text names, masquerading as nobody.
pub fn current_user_from_claims(claims: &Claims) -> (u: CurrentUser)
    ensures
        u.id == claims.sub,
        u.first_name == claims.given_name,
        u.last_name == claims.family_name,
        u.email == claims.email,
        u.organization_id == claims.organization_id,
        u.role == role_named(claims.role@),
        u.masquerading_user_id is None,
{
    CurrentUser {
        id: claims.sub.clone(),
        first_name: claims.given_name.clone(),
        last_name: claims.family_name.clone(),
        email: claims.email.clone(),
        organization_id: claims.organization_id.clone(),
        role: UserRole::from_text(claims.role.as_str()),
        masquerading_user_id: None,
    }
}

/// The user a request should act as instead of `current`: the one the
/// masquerade cookie names, honoured only for administrators.
pub fn masquerade_target(current: &CurrentUser, cookie: Option<String>) -> (r: Option<String>)
    ensures
        r == (if spec_is_admin(current.role) { cookie } else { None }),
{
    if current.role.is_admin() {
        cookie
    } else {
        None
    }
}

/// The acting user when the administrator `admin` masquerades as `user`: the
/// user's identity and role, within the administrator's organization, marked
/// as masqueraded by the administrator.
pub fn masquerade_as(admin: &CurrentUser, user: &User) -> (u: CurrentUser)
    ensures
        u.id == user.id,
        u.first_name == user.first_name,
        u.last_name == user.last_name,
        u.email == user.email,
        u.organization_id == admin.organization_id,
        u.role == role_named(user.role@),
        u.masquerading_user_id == Some(admin.id),
{
    CurrentUser {
        id: user.id.clone(),
        first_name: user.first_name.clone(),
        last_name: user.last_name.clone(),
        email: user.email.clone(),
        organization_id: admin.organization_id.clone(),
        role: UserRole::from_text(user.role.as_str()),
        masquerading_user_id: Some(admin.id.clone()),
    }
}

/// Whether a token's role text allows starting a masquerade.
pub open spec fn role_text_may_masquerade(role: Seq<char>) -> bool {
    role == "Admin"@ || role == "SystemAdmin"@
}

/// The masquerade endpoint and the request authentication agree on who may
/// masquerade: a token's role text allows it exactly when the role it names
/// is an administrator's.
pub proof fn lemma_masquerade_rights_agree(role: Seq<char>)
    ensures
        role_text_may_masquerade(role) <==> spec_is_admin(role_named(role)),
{
    reveal_strlit("User");
    reveal_strlit("Admin");
    reveal_strlit("SystemAdmin");
    assert("Admin"@.len() != "User"@.len());
    assert("SystemAdmin"@.len() != "User"@.len());
    assert("SystemAdmin"@.len() != "Admin"@.len());
}

/// What a request to masquerade as a user leads to.
#[derive(Debug, Clone, PartialEq, Eq)]
pub enum MasqueradeDecision {
    /// The requester may not masquerade.
    Forbidden,
    /// The requester named themself: the masquerade cookie (holding this
    /// value) is expired, ending any masquerade.
    ClearCookie(String),
    /// The named user is looked up in the requester's organization; if found,
    /// the masquerade cookie is set to this id, else the request fails.
    LookUp(String),
}

/// Decides a request by the token holder `claims` to masquerade as `target`.
pub fn masquerade_decision(claims: &Claims, target: &str) -> (d: MasqueradeDecision)
    ensures
        !role_text_may_masquerade(claims.role@) ==> d == MasqueradeDecision::Forbidden,
        role_text_may_masquerade(claims.role@) && claims.sub@ == target@ ==> (d matches MasqueradeDecision::ClearCookie(v) && v@ == claims.sub@),
        role_text_may_masquerade(claims.role@) && claims.sub@ != target@ ==> (d matches MasqueradeDecision::LookUp(t) && t@ == target@),
{
    if !str_eq(claims.role.as_str(), "Admin") && !str_eq(claims.role.as_str(), "SystemAdmin") {
        return MasqueradeDecision::Forbidden;
    }
    if str_eq(claims.sub.as_str(), target) {
        MasqueradeDecision::ClearCookie(claims.sub.clone())
    } else {
        MasqueradeDecision::LookUp(target.to_owned())
    }
}

/// The outcome of looking up an uploaded row's user by email.
#[derive(Debug, Clone, Copy, PartialEq, Eq, Structural)]
pub enum LookupOutcome {
    Found,
    NotFound,
    Failed,
}

/// What is done with an uploaded user row.
#[derive(Debug, Clone, Copy, PartialEq, Eq, Structural)]
pub enum RowAction {
    /// The user exists; the row takes part in the manager assignment.
    KeepExisting,
    /// The user is created; the row takes part in the manager assignment if that succeeds.
    CreateUser,
    /// The row is dropped.
    Skip,
}

/// Decides an uploaded row from the lookup of its email.
pub fn user_row_action(outcome: LookupOutcome) -> (a: RowAction)
    ensures
        outcome == LookupOutcome::Found ==> a == RowAction::KeepExisting,
        outcome == LookupOutcome::NotFound ==> a == RowAction::CreateUser,
        outcome == LookupOutcome::Failed ==> a == RowAction::Skip,
{
    match outcome {
        LookupOutcome::Found => RowAction::KeepExisting,
        LookupOutcome::NotFound => RowAction::CreateUser,
        LookupOutcome::Failed => RowAction::Skip,
    }
}

/// The manager to record for a user whose current manager is `current`, when
/// the row's manager resolved to `manager_id`: a change only when a manager was
/// found and differs from the current one.
pub fn manager_change(current: &Option<String>, manager_id: &Option<String>) -> (r: Option<String>)
    ensures
        r is Some <==> (manager_id matches Some(m) && !(current matches Some(c) && c@ == m@)),
        r is Some ==> r == *manager_id,
{
    match manager_id {
        None => None,
        Some(m) => {
            let differs = match current {
                Some(c) => !(*c == *m),
                None => true,
            };
            if differs {
                Some(m.clone())
            } else {
                None
            }
        },
    }
}

/// The request that creates the user an administrator adds: in the
/// administrator's organization and its user pool, with the requested email,
/// names and role, and no title or manager.
pub fn add_user_request(add: &AddUserRequest, user_pool_id: String, organization_id: String) -> (r: CreateUserRequest)
    ensures
        r.user_pool_id == user_pool_id,
        r.organization_id == organization_id,
        r.email == add.email,
        r.first_name == add.first_name,
        r.last_name == add.last_name,
        r.role == add.role,
        r.title is None,
        r.manager_id is None,
{
    CreateUserRequest {
        user_pool_id,
        organization_id,
        email: add.email.clone(),
        first_name: add.first_name.clone(),
        last_name: add.last_name.clone(),
        role: add.role,
        title: None,
        manager_id: None,
    }
}

/// What the lookups found for an uploaded user row: the id of the user its
/// manager email names, and the row's own user with their current manager.
#[derive(Debug, Clone)]
pub struct RowManagerLookup {
    pub manager_id: Option<String>,
    pub user_id: Option<String>,
    pub current_manager: Option<String>,
}

/// A user whose manager is to be set.
#[derive(Debug, Clone, PartialEq, Eq)]
pub struct ManagerUpdate {
    pub user_id: String,
    pub manager_id: String,
}

/// The update a row's lookups call for: when both the manager and the user
/// were found and the manager differs from the user's current one.
pub open spec fn row_manager_update(l: RowManagerLookup) -> Option<(Seq<char>, Seq<char>)> {
    match (l.manager_id, l.user_id) {
        (Some(m), Some(u)) => if l.current_manager matches Some(c) && c@ == m@ {
            None
        } else {
            Some((u@, m@))
        },
        _ => None,
    }
}

/// The manager update an uploaded row's lookups call for, if any.
pub fn manager_update(lookup: &RowManagerLookup) -> (r: Option<ManagerUpdate>)
    ensures
        r is Some <==> row_manager_update(*lookup) is Some,
        r matches Some(u) ==> row_manager_update(*lookup) == Some((u.user_id@, u.manager_id@)),
{
    match (&lookup.manager_id, &lookup.user_id) {
        (Some(m), Some(u)) => {
            if manager_change(&lookup.current_manager, &lookup.manager_id).is_some() {
                Some(ManagerUpdate { user_id: u.clone(), manager_id: m.clone() })
            } else {
                None
            }
        },
        _ => None,
    }
}

} // verus!
