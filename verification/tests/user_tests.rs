use pago_backend::attributes::Attribute;
use pago_backend::auth::Claims;
use pago_backend::user::client::{
    add_user_request, manager_update, ManagerUpdate, RowManagerLookup,
    cognito_create_attributes, cognito_update_attributes, created_user_id, current_user_from_claims,
    get_create_user_request, manager_change, masquerade_as, masquerade_decision, masquerade_target,
    user_row_action, LookupOutcome, MasqueradeDecision, Row, RowAction,
};
use pago_backend::user::models::{
    AddUserRequest,
    CognitoUser, CreateUserRequest, CurrentUser, NewUser, UpdateUserRequest, User, UserRole,
};

fn claims(role: &str) -> Claims {
    Claims {
        sub: "u-1".to_string(),
        given_name: "Ada".to_string(),
        family_name: "Lovelace".to_string(),
        email: "ada@example.com".to_string(),
        organization_id: "org-1".to_string(),
        role: role.to_string(),
    }
}

fn current(role: UserRole) -> CurrentUser {
    CurrentUser {
        id: "admin-1".to_string(),
        first_name: "Grace".to_string(),
        last_name: "Hopper".to_string(),
        email: "grace@example.com".to_string(),
        organization_id: "org-1".to_string(),
        role,
        masquerading_user_id: None,
    }
}

fn stored_user(role: &str, manager_id: Option<&str>) -> User {
    User {
        id: "u-2".to_string(),
        first_name: "Alan".to_string(),
        last_name: "Turing".to_string(),
        email: "alan@example.com".to_string(),
        organization_id: "org-2".to_string(),
        role: role.to_string(),
        title: Some("Engineer".to_string()),
        manager_id: manager_id.map(|m| m.to_string()),
        created_at: 0,
    }
}

fn create_request(role: UserRole) -> CreateUserRequest {
    CreateUserRequest {
        user_pool_id: "pool-1".to_string(),
        email: "ada@example.com".to_string(),
        organization_id: "org-1".to_string(),
        first_name: "Ada".to_string(),
        last_name: "Lovelace".to_string(),
        role,
        title: Some("CTO".to_string()),
        manager_id: None,
    }
}

fn text_attr(name: &str, value: &str) -> Attribute {
    Attribute { name: name.to_string(), value: Some(value.to_string()) }
}

#[test]
fn role_display_texts() {
    assert_eq!(UserRole::User.to_display_string(), "User");
    assert_eq!(UserRole::Admin.to_display_string(), "Admin");
    assert_eq!(UserRole::SystemAdmin.to_display_string(), "System Admin");
}

#[test]
fn role_from_text_reads_stored_names() {
    assert_eq!(UserRole::from_text("User"), UserRole::User);
    assert_eq!(UserRole::from_text("Admin"), UserRole::Admin);
    assert_eq!(UserRole::from_text("SystemAdmin"), UserRole::SystemAdmin);
    assert_eq!(UserRole::from_text("manager"), UserRole::User);
    assert_eq!(UserRole::from_text(""), UserRole::User);
}

#[test]
fn role_from_string_conversion() {
    assert_eq!(UserRole::from("Admin".to_string()), UserRole::Admin);
    let role: UserRole = "SystemAdmin".to_string().into();
    assert_eq!(role, UserRole::SystemAdmin);
}

#[test]
fn role_round_trip_through_display_text() {
    for role in [UserRole::User, UserRole::Admin] {
        assert_eq!(UserRole::from_text(&role.to_display_string()), role);
    }
    // The display text of a system admin does not read back as a system admin.
    assert_eq!(UserRole::from_text(&UserRole::SystemAdmin.to_display_string()), UserRole::User);
}

#[test]
fn role_admin_rights() {
    assert!(!UserRole::User.is_admin());
    assert!(UserRole::Admin.is_admin());
    assert!(UserRole::SystemAdmin.is_admin());
}

#[test]
fn update_request_into_db_change() {
    let req = UpdateUserRequest {
        id: "u-1".to_string(),
        email: Some("new@example.com".to_string()),
        first_name: None,
        last_name: Some("Byron".to_string()),
        user_role: Some(UserRole::SystemAdmin),
    };
    let db = req.into();
    assert_eq!(db.id, "u-1");
    assert_eq!(db.email.as_deref(), Some("new@example.com"));
    assert_eq!(db.first_name, None);
    assert_eq!(db.last_name.as_deref(), Some("Byron"));
    assert_eq!(db.role.as_deref(), Some("System Admin"));

    let unchanged = UpdateUserRequest {
        id: "u-1".to_string(),
        email: None,
        first_name: None,
        last_name: None,
        user_role: None,
    };
    assert_eq!(unchanged.into().role, None);
}

#[test]
fn new_user_row_for_request() {
    let row = NewUser::for_request(&create_request(UserRole::Admin), "sub-9");
    assert_eq!(row.id, "sub-9");
    assert_eq!(row.first_name, "Ada");
    assert_eq!(row.last_name, "Lovelace");
    assert_eq!(row.email, "ada@example.com");
    assert_eq!(row.organization_id, "org-1");
    assert_eq!(row.role, "Admin");
    assert_eq!(row.title.as_deref(), Some("CTO"));
    assert_eq!(row.manager_id, None);
}

#[test]
fn create_user_request_from_uploaded_row() {
    let row = Row {
        email: "e@example.com".to_string(),
        first_name: "Edsger".to_string(),
        last_name: "Dijkstra".to_string(),
        title: Some("Professor".to_string()),
        manager_email: Some("m@example.com".to_string()),
    };
    let req = get_create_user_request(&row, "org-7".to_string(), "pool-7".to_string());
    assert_eq!(req.user_pool_id, "pool-7");
    assert_eq!(req.organization_id, "org-7");
    assert_eq!(req.email, "e@example.com");
    assert_eq!(req.first_name, "Edsger");
    assert_eq!(req.last_name, "Dijkstra");
    assert_eq!(req.role, UserRole::User);
    assert_eq!(req.title.as_deref(), Some("Professor"));
    assert_eq!(req.manager_id, None);
}

#[test]
fn create_attributes_in_order() {
    let attrs = cognito_create_attributes(&create_request(UserRole::SystemAdmin));
    let pairs: Vec<(String, Option<String>)> = attrs.into_iter().map(|a| (a.name, a.value)).collect();
    assert_eq!(
        pairs,
        vec![
            ("email".to_string(), Some("ada@example.com".to_string())),
            ("custom:userRole".to_string(), Some("System Admin".to_string())),
            ("custom:tenantId".to_string(), Some("org-1".to_string())),
            ("given_name".to_string(), Some("Ada".to_string())),
            ("family_name".to_string(), Some("Lovelace".to_string())),
        ]
    );
}

#[test]
fn update_attributes_only_for_set_fields() {
    let req = UpdateUserRequest {
        id: "u-1".to_string(),
        email: None,
        first_name: Some("Ada".to_string()),
        last_name: None,
        user_role: Some(UserRole::Admin),
    };
    let attrs = cognito_update_attributes(&req);
    let pairs: Vec<(String, Option<String>)> = attrs.into_iter().map(|a| (a.name, a.value)).collect();
    assert_eq!(
        pairs,
        vec![
            ("given_name".to_string(), Some("Ada".to_string())),
            ("custom:userRole".to_string(), Some("Admin".to_string())),
        ]
    );

    let all = UpdateUserRequest {
        id: "u-1".to_string(),
        email: Some("a@b.c".to_string()),
        first_name: Some("A".to_string()),
        last_name: Some("B".to_string()),
        user_role: Some(UserRole::User),
    };
    let names: Vec<String> = cognito_update_attributes(&all).into_iter().map(|a| a.name).collect();
    assert_eq!(names, vec!["email", "given_name", "family_name", "custom:userRole"]);
}

#[test]
fn update_attributes_empty_when_nothing_changes() {
    let req = UpdateUserRequest {
        id: "u-1".to_string(),
        email: None,
        first_name: None,
        last_name: None,
        user_role: None,
    };
    assert!(cognito_update_attributes(&req).is_empty());
}

#[test]
fn created_user_id_is_sub_attribute() {
    let attrs = vec![text_attr("email", "a@b.c"), text_attr("sub", "abc-123"), text_attr("sub", "later")];
    assert_eq!(created_user_id(&attrs).as_deref(), Some("abc-123"));
    assert_eq!(created_user_id(&vec![text_attr("email", "a@b.c")]), None);
    let no_text = vec![Attribute { name: "sub".to_string(), value: None }, text_attr("sub", "x")];
    assert_eq!(created_user_id(&no_text), None);
}

#[test]
fn cognito_user_from_attributes() {
    let attrs = vec![
        text_attr("sub", "s-1"),
        text_attr("given_name", "Ada"),
        text_attr("family_name", "Lovelace"),
        text_attr("email", "ada@example.com"),
        text_attr("custom:tenantId", "org-1"),
        text_attr("custom:userRole", "Admin"),
    ];
    let user: CognitoUser = CognitoUser::from_attributes(&attrs).unwrap();
    assert_eq!(user.sub, "s-1");
    assert_eq!(user.given_name, "Ada");
    assert_eq!(user.family_name, "Lovelace");
    assert_eq!(user.email, "ada@example.com");
    assert_eq!(user.organization_id, "org-1");
    assert_eq!(user.role, "Admin");

    let missing: Vec<Attribute> = attrs[..5].to_vec();
    assert!(CognitoUser::from_attributes(&missing).is_none());
}

#[test]
fn current_user_from_token_claims() {
    let u = current_user_from_claims(&claims("SystemAdmin"));
    assert_eq!(u.id, "u-1");
    assert_eq!(u.first_name, "Ada");
    assert_eq!(u.last_name, "Lovelace");
    assert_eq!(u.email, "ada@example.com");
    assert_eq!(u.organization_id, "org-1");
    assert_eq!(u.role, UserRole::SystemAdmin);
    assert_eq!(u.masquerading_user_id, None);
    assert_eq!(current_user_from_claims(&claims("role")).role, UserRole::User);
}

#[test]
fn masquerade_cookie_honoured_only_for_admins() {
    let cookie = Some("u-2".to_string());
    assert_eq!(masquerade_target(&current(UserRole::Admin), cookie.clone()).as_deref(), Some("u-2"));
    assert_eq!(masquerade_target(&current(UserRole::SystemAdmin), cookie.clone()).as_deref(), Some("u-2"));
    assert_eq!(masquerade_target(&current(UserRole::User), cookie), None);
    assert_eq!(masquerade_target(&current(UserRole::Admin), None), None);
}

#[test]
fn masquerading_acts_as_target_user() {
    let admin = current(UserRole::Admin);
    let u = masquerade_as(&admin, &stored_user("SystemAdmin", None));
    assert_eq!(u.id, "u-2");
    assert_eq!(u.first_name, "Alan");
    assert_eq!(u.last_name, "Turing");
    assert_eq!(u.email, "alan@example.com");
    assert_eq!(u.organization_id, "org-1");
    assert_eq!(u.role, UserRole::SystemAdmin);
    assert_eq!(u.masquerading_user_id.as_deref(), Some("admin-1"));
}

#[test]
fn masquerade_request_decisions() {
    assert_eq!(masquerade_decision(&claims("User"), "u-2"), MasqueradeDecision::Forbidden);
    // The display text of a system admin is not a role text that may masquerade.
    assert_eq!(masquerade_decision(&claims("System Admin"), "u-2"), MasqueradeDecision::Forbidden);
    assert_eq!(
        masquerade_decision(&claims("Admin"), "u-1"),
        MasqueradeDecision::ClearCookie("u-1".to_string())
    );
    assert_eq!(
        masquerade_decision(&claims("SystemAdmin"), "u-2"),
        MasqueradeDecision::LookUp("u-2".to_string())
    );
}

#[test]
fn uploaded_user_row_actions() {
    assert_eq!(user_row_action(LookupOutcome::Found), RowAction::KeepExisting);
    assert_eq!(user_row_action(LookupOutcome::NotFound), RowAction::CreateUser);
    assert_eq!(user_row_action(LookupOutcome::Failed), RowAction::Skip);
}

#[test]
fn manager_changes_only_when_different() {
    let m = Some("m-1".to_string());
    assert_eq!(manager_change(&None, &m), m);
    assert_eq!(manager_change(&Some("m-0".to_string()), &m), m);
    assert_eq!(manager_change(&Some("m-1".to_string()), &m), None);
    assert_eq!(manager_change(&Some("m-1".to_string()), &None), None);
    assert_eq!(manager_change(&None, &None), None);
}

#[test]
fn masquerade_rights_agree_with_roles() {
    for role in ["Admin", "SystemAdmin", "User", "System Admin", "admin", ""] {
        let forbidden = masquerade_decision(&claims(role), "u-2") == MasqueradeDecision::Forbidden;
        assert_eq!(forbidden, !current_user_from_claims(&claims(role)).role.is_admin());
    }
}

#[test]
fn added_user_request() {
    let add = AddUserRequest {
        email: "new@example.com".to_string(),
        first_name: "New".to_string(),
        last_name: "Person".to_string(),
        role: UserRole::Admin,
    };
    let r = add_user_request(&add, "pool-1".to_string(), "org-1".to_string());
    assert_eq!(r.user_pool_id, "pool-1");
    assert_eq!(r.organization_id, "org-1");
    assert_eq!(r.email, "new@example.com");
    assert_eq!(r.first_name, "New");
    assert_eq!(r.last_name, "Person");
    assert_eq!(r.role, UserRole::Admin);
    assert_eq!(r.title, None);
    assert_eq!(r.manager_id, None);
}

fn lookup(manager: Option<&str>, user: Option<&str>, current: Option<&str>) -> RowManagerLookup {
    RowManagerLookup {
        manager_id: manager.map(|s| s.to_string()),
        user_id: user.map(|s| s.to_string()),
        current_manager: current.map(|s| s.to_string()),
    }
}

#[test]
fn manager_updates_for_uploaded_rows() {
    assert_eq!(
        manager_update(&lookup(Some("m-1"), Some("u-1"), None)),
        Some(ManagerUpdate { user_id: "u-1".to_string(), manager_id: "m-1".to_string() })
    );
    assert_eq!(
        manager_update(&lookup(Some("m-1"), Some("u-1"), Some("m-0"))),
        Some(ManagerUpdate { user_id: "u-1".to_string(), manager_id: "m-1".to_string() })
    );
    assert_eq!(manager_update(&lookup(Some("m-1"), Some("u-1"), Some("m-1"))), None);
    assert_eq!(manager_update(&lookup(None, Some("u-1"), None)), None);
    assert_eq!(manager_update(&lookup(Some("m-1"), None, None)), None);
}
