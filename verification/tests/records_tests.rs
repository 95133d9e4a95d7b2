use pago_backend::goals::client::{new_goal, NEW_GOAL_STATUS};
use pago_backend::goals::models::CreateGoalRequest;
use pago_backend::organizations::client::{
    admin_create_user_request, new_organization_id, user_pool_client_settings, OAuthFlow,
};
use pago_backend::organizations::models::{
    Config, CreateOrganizationRequest, CreateOrganizationResponse, NewOrganizationDetails, OrganizationDetails,
};
use pago_backend::reviews::client::{
    get_manager_schema_id, manager_review_request, may_view_review, partition_reviews, submitted_review,
};
use pago_backend::reviews::models::ReviewDetails;
use pago_backend::errors::ServiceError;
use pago_backend::user::models::{CurrentUser, User, UserRole};

fn org_request() -> CreateOrganizationRequest {
    CreateOrganizationRequest {
        organization_name: "Acme".to_string(),
        subdomain: "acme".to_string(),
        admin_first_name: "Wile".to_string(),
        admin_last_name: "Coyote".to_string(),
        admin_email: "wile@acme.com".to_string(),
    }
}

fn details(schema: &str) -> ReviewDetails {
    ReviewDetails {
        project_name: "Rocket".to_string(),
        project_description: "Catch the bird".to_string(),
        project_size: 2,
        schema_id: schema.to_string(),
    }
}

fn employee(manager_id: Option<&str>) -> User {
    User {
        id: "e-1".to_string(),
        first_name: "Wile".to_string(),
        last_name: "Coyote".to_string(),
        email: "wile@acme.com".to_string(),
        organization_id: "org-1".to_string(),
        role: "User".to_string(),
        title: None,
        manager_id: manager_id.map(|m| m.to_string()),
        created_at: 1_700_000_000_000_000,
    }
}

fn current(masquerading: Option<&str>) -> CurrentUser {
    CurrentUser {
        id: "e-1".to_string(),
        first_name: "Wile".to_string(),
        last_name: "Coyote".to_string(),
        email: "wile@acme.com".to_string(),
        organization_id: "org-1".to_string(),
        role: UserRole::User,
        masquerading_user_id: masquerading.map(|m| m.to_string()),
    }
}

fn is_uuid(s: &str) -> bool {
    s.len() == 36
        && s.chars().enumerate().all(|(i, c)| {
            if i == 8 || i == 13 || i == 18 || i == 23 { c == '-' } else { c.is_ascii_digit() || ('a'..='f').contains(&c) }
        })
}

#[test]
fn new_goal_row() {
    let req = CreateGoalRequest { name: "Grow".to_string(), description: "Grow revenue".to_string() };
    let g = new_goal("org-1", &req);
    assert!(is_uuid(&g.id));
    assert_eq!(g.organization_id, "org-1");
    assert_eq!(g.name, "Grow");
    assert_eq!(g.description, "Grow revenue");
    assert_eq!(g.status, 1);
    assert_eq!(NEW_GOAL_STATUS, 1);
    assert_ne!(new_goal("org-1", &req).id, g.id);
}

#[test]
fn identity_client_settings() {
    let s = user_pool_client_settings("pool-1".to_string(), "acme");
    assert_eq!(s.user_pool_id, "pool-1");
    assert_eq!(s.client_name, "AppClient-acme");
    assert!(!s.generate_secret);
    assert_eq!(s.allowed_o_auth_flows, vec![OAuthFlow::Code, OAuthFlow::Implicit]);
    assert_eq!(s.supported_identity_providers, vec!["COGNITO"]);
    assert_eq!(
        s.callback_urls,
        vec!["https://acme.pagopeople.com/", "https://acme.staging.pagopeople.com/"]
    );
    assert_eq!(s.logout_urls, vec!["https://acme.pagopeople.com/"]);
    assert_eq!(
        s.allowed_o_auth_scopes,
        vec!["email", "openid", "profile", "phone", "aws.cognito.signin.user.admin"]
    );
    assert_eq!(s.write_attributes, vec!["given_name", "family_name", "email", "custom:tenantId"]);
}

#[test]
fn first_administrator_request() {
    let r = admin_create_user_request(&org_request(), "pool-1".to_string(), "org-9".to_string());
    assert_eq!(r.user_pool_id, "pool-1");
    assert_eq!(r.organization_id, "org-9");
    assert_eq!(r.email, "wile@acme.com");
    assert_eq!(r.first_name, "Wile");
    assert_eq!(r.last_name, "Coyote");
    assert_eq!(r.role, UserRole::Admin);
    assert_eq!(r.title, None);
    assert_eq!(r.manager_id, None);
}

#[test]
fn new_organization_ids() {
    let id = new_organization_id();
    assert!(is_uuid(&id));
    assert!(!id.contains('_'));
}

#[test]
fn organization_config_defaults_to_empty() {
    let d = OrganizationDetails {
        id: "org-1".to_string(),
        name: "Acme".to_string(),
        subdomain: "acme".to_string(),
        user_pool_id: Some("pool-1".to_string()),
        user_pool_client_id: None,
        created_at: 0,
    };
    let c = Config::from_details(&d);
    assert_eq!(c.user_pool_id, "pool-1");
    assert_eq!(c.user_pool_client_id, "");
}

#[test]
fn organization_response_from_client() {
    let r = CreateOrganizationResponse::from_client(Some("p".to_string()), Some("c".to_string())).unwrap();
    assert_eq!(r.user_pool_id, "p");
    assert_eq!(r.user_pool_client_id, "c");
    assert!(CreateOrganizationResponse::from_client(None, Some("c".to_string())).is_none());
    assert!(CreateOrganizationResponse::from_client(Some("p".to_string()), None).is_none());
}

#[test]
fn new_organization_row() {
    let d = NewOrganizationDetails::for_request("org-1", &org_request(), &Some("p".to_string()), &None);
    assert_eq!(d.id, "org-1");
    assert_eq!(d.name, "Acme");
    assert_eq!(d.subdomain, "acme");
    assert_eq!(d.user_pool_id.as_deref(), Some("p"));
    assert_eq!(d.user_pool_client_id, None);
}

#[test]
fn manager_schema_ids() {
    assert_eq!(get_manager_schema_id("endproj"), "endproj_manager");
    assert_eq!(get_manager_schema_id("midproj"), "midproj_manager");
    assert_eq!(get_manager_schema_id("ongoing"), "ongoing_manager");
    assert_eq!(get_manager_schema_id("endproj_manager"), "Unknown");
    assert_eq!(get_manager_schema_id(""), "Unknown");
}

#[test]
fn reviews_split_by_status() {
    let statuses: Vec<String> = ["SUBMITTED", "REQUESTED", "DRAFT", "SUBMITTED", "submitted", "REQUESTED"]
        .iter()
        .map(|s| s.to_string())
        .collect();
    let p = partition_reviews(&statuses);
    assert_eq!(p.completed, vec![0, 3]);
    assert_eq!(p.requested, vec![1, 5]);
    let empty = partition_reviews(&vec![]);
    assert!(empty.completed.is_empty() && empty.requested.is_empty());
}

#[test]
fn only_author_views_review() {
    assert!(may_view_review("e-1", "e-1"));
    assert!(!may_view_review("e-1", "e-2"));
}

#[test]
fn submitted_review_row() {
    let r = submitted_review(&current(None), &details("endproj"), 42).unwrap();
    assert!(is_uuid(&r.id));
    assert_eq!(r.organization_id, "org-1");
    assert_eq!(r.submitted_by, "e-1");
    assert_eq!(r.project_name, "Rocket");
    assert_eq!(r.project_description, "Catch the bird");
    assert_eq!(r.project_size, 2);
    assert_eq!(r.schema_id, "endproj");
    assert_eq!(r.status, "SUBMITTED");
    assert_eq!(r.original_review_id, None);
    assert_eq!(r.submitted_at, Some(42));
}

#[test]
fn no_review_while_masquerading() {
    assert!(submitted_review(&current(Some("admin-1")), &details("endproj"), 42).is_none());
}

#[test]
fn manager_review_request_row() {
    let r = manager_review_request(&employee(Some("m-1")), "org-1", "rev-1", &details("ongoing")).unwrap();
    assert!(is_uuid(&r.id));
    assert_eq!(r.organization_id, "org-1");
    assert_eq!(r.submitted_by, "m-1");
    assert_eq!(r.project_name, "Rocket");
    assert_eq!(r.project_size, 2);
    assert_eq!(r.schema_id, "ongoing_manager");
    assert_eq!(r.status, "REQUESTED");
    assert_eq!(r.original_review_id.as_deref(), Some("rev-1"));
    assert_eq!(r.submitted_at, None);
}

#[test]
fn manager_review_request_without_manager() {
    match manager_review_request(&employee(None), "org-1", "rev-1", &details("endproj")) {
        Err(e) => assert_eq!(e, ServiceError::BadRequest("No manager found for user".to_string())),
        Ok(_) => panic!("a review was requested from a missing manager"),
    }
}
