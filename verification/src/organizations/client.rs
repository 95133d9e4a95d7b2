//! Decisions of the organization handlers: the identity-provider client an
//! organization gets, and its first administrator.

use vstd::prelude::*;
use crate::ids::new_id;
use crate::organizations::models::CreateOrganizationRequest;
use crate::text::join_text;
use crate::user::models::{CreateUserRequest, UserRole};

verus! {

/// An OAuth flow the identity-provider client allows.
#[derive(Debug, Clone, Copy, PartialEq, Eq, Structural)]
pub enum OAuthFlow {
    Code,
    Implicit,
}

/// The settings of the identity-provider client created for an organization.
#[derive(Debug, Clone)]
pub struct UserPoolClientSettings {
    pub user_pool_id: String,
    pub client_name: String,
    pub generate_secret: bool,
    pub allowed_o_auth_flows: Vec<OAuthFlow>,
    pub supported_identity_providers: Vec<String>,
    pub callback_urls: Vec<String>,
    pub logout_urls: Vec<String>,
    pub allowed_o_auth_scopes: Vec<String>,
    pub write_attributes: Vec<String>,
}

/// The address an organization's users return to after signing in.
pub open spec fn callback_url(subdomain: Seq<char>) -> Seq<char> {
    "https://"@ + subdomain + ".pagopeople.com/"@
}

/// The address on the staging site.
pub open spec fn staging_callback_url(subdomain: Seq<char>) -> Seq<char> {
    "https://"@ + subdomain + ".staging.pagopeople.com/"@
}

/// Whether the texts of `v` are exactly the texts `expected`, in order.
pub open spec fn texts_are(v: Seq<String>, expected: Seq<Seq<char>>) -> bool {
    &&& v.len() == expected.len()
    &&& forall|i: int| 0 <= i < v.len() ==> (#[trigger] v[i])@ == expected[i]
}

/// The settings of the identity-provider client for the organization at
/// `subdomain`: named "AppClient-<subdomain>", without a secret, allowing the
/// code and implicit flows through the provider's own sign-in, returning to the
/// organization's site (production and staging), with the email, openid,
/// profile, phone and user-admin scopes, and able to write the given name,
/// family name, email and tenant attributes.
pub fn user_pool_client_settings(user_pool_id: String, subdomain: &str) -> (s: UserPoolClientSettings)
    ensures
        s.user_pool_id == user_pool_id,
        s.client_name@ == "AppClient-"@ + subdomain@,
        !s.generate_secret,
        s.allowed_o_auth_flows@ == seq![OAuthFlow::Code, OAuthFlow::Implicit],
        texts_are(s.supported_identity_providers@, seq!["COGNITO"@]),
        texts_are(s.callback_urls@, seq![callback_url(subdomain@), staging_callback_url(subdomain@)]),
        texts_are(s.logout_urls@, seq![callback_url(subdomain@)]),
        texts_are(
            s.allowed_o_auth_scopes@,
            seq!["email"@, "openid"@, "profile"@, "phone"@, "aws.cognito.signin.user.admin"@],
        ),
        texts_are(
            s.write_attributes@,
            seq!["given_name"@, "family_name"@, "email"@, "custom:tenantId"@],
        ),
{
    let mut callback = join_text("https://", subdomain);
    callback.append(".pagopeople.com/");
    let mut staging = join_text("https://", subdomain);
    staging.append(".staging.pagopeople.com/");
    let logout = callback.clone();
    let mut flows: Vec<OAuthFlow> = Vec::new();
    flows.push(OAuthFlow::Code);
    flows.push(OAuthFlow::Implicit);
    let mut providers: Vec<String> = Vec::new();
    providers.push("COGNITO".to_owned());
    let mut callbacks: Vec<String> = Vec::new();
    callbacks.push(callback);
    callbacks.push(staging);
    let mut logouts: Vec<String> = Vec::new();
    logouts.push(logout);
    let mut scopes: Vec<String> = Vec::new();
    scopes.push("email".to_owned());
    scopes.push("openid".to_owned());
    scopes.push("profile".to_owned());
    scopes.push("phone".to_owned());
    scopes.push("aws.cognito.signin.user.admin".to_owned());
    let mut attributes: Vec<String> = Vec::new();
    attributes.push("given_name".to_owned());
    attributes.push("family_name".to_owned());
    attributes.push("email".to_owned());
    attributes.push("custom:tenantId".to_owned());
    let s = UserPoolClientSettings {
        user_pool_id,
        client_name: join_text("AppClient-", subdomain),
        generate_secret: false,
        allowed_o_auth_flows: flows,
        supported_identity_providers: providers,
        callback_urls: callbacks,
        logout_urls: logouts,
        allowed_o_auth_scopes: scopes,
        write_attributes: attributes,
    };
    assert(s.allowed_o_auth_flows@ =~= seq![OAuthFlow::Code, OAuthFlow::Implicit]);
    s
}

/// The request that creates the first administrator of a new organization.
pub fn admin_create_user_request(item: &CreateOrganizationRequest, user_pool_id: String, organization_id: String) -> (r: CreateUserRequest)
    ensures
        r.user_pool_id == user_pool_id,
        r.organization_id == organization_id,
        r.email == item.admin_email,
        r.first_name == item.admin_first_name,
        r.last_name == item.admin_last_name,
        r.role == UserRole::Admin,
        r.title is None,
        r.manager_id is None,
{
    CreateUserRequest {
        user_pool_id,
        email: item.admin_email.clone(),
        first_name: item.admin_first_name.clone(),
        last_name: item.admin_last_name.clone(),
        organization_id,
        role: UserRole::Admin,
        title: None,
        manager_id: None,
    }
}

/// A fresh id for a new organization; it has no underscore, so files the
/// organization uploads are attributed back to it.
pub fn new_organization_id() -> (id: String)
    ensures
        !id@.contains('_'),
        id@.len() == 36,
{
    new_id()
}

} // verus!
