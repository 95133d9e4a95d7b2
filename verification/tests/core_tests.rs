use pago_backend::attributes::{get_attribute_text, get_attribute_with_name, identity_texts, Attribute};
use pago_backend::auth::{jwks_url, token_issuer, Claims};
use pago_backend::errors::{auth_error_response, FileProcessingError, ServiceError};
use pago_backend::ids::new_id;
use pago_backend::text::{
    chars_of, clone_text, join_text, push_decimal, push_signed_decimal, str_eq, str_starts_with, string_of,
};

fn attr(name: &str, value: Option<&str>) -> Attribute {
    Attribute { name: name.to_string(), value: value.map(|v| v.to_string()) }
}

fn identity() -> Vec<Attribute> {
    vec![
        attr("sub", Some("s-1")),
        attr("given_name", Some("Ada")),
        attr("family_name", Some("Lovelace")),
        attr("email", Some("ada@example.com")),
        attr("custom:tenantId", Some("org-1")),
        attr("custom:userRole", Some("Admin")),
    ]
}

#[test]
fn claims_from_token_fields() {
    let c = Claims::from_attributes(&identity()).unwrap();
    assert_eq!(c.sub, "s-1");
    assert_eq!(c.given_name, "Ada");
    assert_eq!(c.family_name, "Lovelace");
    assert_eq!(c.email, "ada@example.com");
    assert_eq!(c.organization_id, "org-1");
    assert_eq!(c.role, "Admin");
}

#[test]
fn claims_missing_or_non_text_field() {
    let mut fields = identity();
    fields.remove(4);
    assert!(Claims::from_attributes(&fields).is_none());
    let mut fields = identity();
    fields[0] = attr("sub", None);
    assert!(Claims::from_attributes(&fields).is_none());
}

#[test]
fn claims_first_field_of_a_name_wins() {
    let mut fields = identity();
    fields.push(attr("email", Some("other@example.com")));
    assert_eq!(Claims::from_attributes(&fields).unwrap().email, "ada@example.com");
}

#[test]
fn unvalidated_token_claims_are_fixed() {
    let c = Claims::unvalidated_token_claims();
    assert_eq!(c.sub, "testclaims");
    assert_eq!(c.given_name, "testname");
    assert_eq!(c.family_name, "String");
    assert_eq!(c.email, "String");
    assert_eq!(c.organization_id, "String");
    assert_eq!(c.role, "role");
}

#[test]
fn token_issuer_and_key_set_address() {
    assert_eq!(token_issuer("us-west-2_abc"), "https://cognito-idp.us-west-2.amazonaws.com/us-west-2_abc");
    assert_eq!(
        jwks_url("us-west-2_abc"),
        "https://cognito-idp.us-west-2.amazonaws.com/us-west-2_abc/.well-known/jwks.json"
    );
}

#[test]
fn attribute_lookups() {
    let attrs = vec![attr("a", None), attr("b", Some("1")), attr("a", Some("2"))];
    let first = get_attribute_with_name(&attrs, "a").unwrap();
    assert_eq!(first.name, "a");
    assert_eq!(first.value, None);
    assert_eq!(get_attribute_text(&attrs, "a"), None);
    assert_eq!(get_attribute_text(&attrs, "b").as_deref(), Some("1"));
    assert!(get_attribute_with_name(&attrs, "c").is_none());
}

#[test]
fn identity_texts_in_order() {
    let t = identity_texts(&identity()).unwrap();
    assert_eq!(
        t,
        (
            "s-1".to_string(),
            "Ada".to_string(),
            "Lovelace".to_string(),
            "ada@example.com".to_string(),
            "org-1".to_string(),
            "Admin".to_string()
        )
    );
    assert!(identity_texts(&vec![]).is_none());
}

#[test]
fn service_error_messages() {
    assert_eq!(ServiceError::InternalServerError.message(), "Internal Server Error");
    assert_eq!(ServiceError::NotFoundError.message(), "Not found error");
    assert_eq!(ServiceError::BadRequest("bad input".to_string()).message(), "BadRequest: bad input");
    assert_eq!(ServiceError::JWKSFetchError.message(), "JWKSFetchError");
    assert_eq!(ServiceError::AWSSdkError("x".to_string()).message(), "AWS SDK Error");
    assert_eq!(ServiceError::DieselError("x".to_string()).message(), "Database error");
    assert_eq!(ServiceError::EnvVarError("x".to_string()).message(), "Env var error");
    assert_eq!(ServiceError::ForbiddenError.message(), "Forbidden error");
}

#[test]
fn file_processing_error_messages() {
    assert_eq!(FileProcessingError::EmailNotFoundError.message(), "Email not found error");
    assert_eq!(FileProcessingError::ParseError("abc".to_string()).message(), "Parsing error: abc");
    assert_eq!(FileProcessingError::InsertError("dup".to_string()).message(), "Error saving to db: dup");
}

#[test]
fn service_error_responses() {
    let cases: Vec<(ServiceError, u16, Option<&str>)> = vec![
        (ServiceError::InternalServerError, 500, Some("Internal Server Error, Please try later")),
        (ServiceError::NotFoundError, 404, None),
        (ServiceError::BadRequest("current user not found".to_string()), 400, Some("current user not found")),
        (ServiceError::JWKSFetchError, 500, Some("Could not fetch JWKS")),
        (ServiceError::AWSSdkError("sdk".to_string()), 500, Some("sdk")),
        (ServiceError::DieselError("db".to_string()), 500, Some("db")),
        (ServiceError::EnvVarError("env".to_string()), 500, Some("env")),
        (ServiceError::ForbiddenError, 403, None),
    ];
    for (e, status, body) in cases {
        let r = e.error_response();
        assert_eq!(r.status, status);
        assert_eq!(r.body.as_deref(), body);
    }
}

#[test]
fn authentication_failure_response() {
    let r = auth_error_response();
    assert_eq!(r.status, 500);
    assert_eq!(r.body.as_deref(), Some("Could not fetch JWKS"));
}

#[test]
fn fresh_ids_are_hyphenated_lowercase_uuids() {
    let a = new_id();
    let b = new_id();
    for id in [&a, &b] {
        assert_eq!(id.chars().count(), 36);
        for (i, c) in id.chars().enumerate() {
            if i == 8 || i == 13 || i == 18 || i == 23 {
                assert_eq!(c, '-');
            } else {
                assert!(c.is_ascii_digit() || ('a'..='f').contains(&c));
            }
        }
        assert!(!id.contains('_'));
    }
    assert_ne!(a, b);
}

#[test]
fn text_helpers() {
    assert!(str_eq("abc", "abc"));
    assert!(!str_eq("abc", "abd"));
    assert!(!str_eq("ab", "abc"));
    assert_eq!(chars_of("héllo"), vec!['h', 'é', 'l', 'l', 'o']);
    assert_eq!(string_of(&vec!['a', 'ß', 'c']), "aßc");
    assert_eq!(join_text("foo", "bar"), "foobar");
    assert_eq!(clone_text(&Some("x".to_string())).as_deref(), Some("x"));
    assert_eq!(clone_text(&None), None);
    assert!(str_starts_with("pago-comp-data-staging", "pago-comp-data"));
    assert!(!str_starts_with("pago", "pago-comp-data"));
}

#[test]
fn decimal_texts() {
    let mut s = String::from("n=");
    push_decimal(&mut s, 0);
    assert_eq!(s, "n=0");
    let mut s = String::new();
    push_decimal(&mut s, 18446744073709551615);
    assert_eq!(s, "18446744073709551615");
    let mut s = String::new();
    push_signed_decimal(&mut s, -2147483648);
    assert_eq!(s, "-2147483648");
    let mut s = String::new();
    push_signed_decimal(&mut s, 2024);
    assert_eq!(s, "2024");
}
