use pago_backend::auth::{check_token, try_check_token, SigningKey, TokenCheck};
use pago_backend::errors::ServiceError;
use pago_backend::scoring::client::has_performance_data;

// Header {"alg":"RS256","kid":"k1"}.
const WITH_KID: &str = "eyJhbGciOiJSUzI1NiIsImtpZCI6ImsxIn0.eyJzdWIiOiJ4In0.c2ln";
// Header {"alg":"RS256"}.
const WITHOUT_KID: &str = "eyJhbGciOiJSUzI1NiJ9.eyJzdWIiOiJ4In0.c2ln";

fn key(kid: &str) -> SigningKey {
    SigningKey { kid: kid.to_string(), n: "AQAB".to_string(), e: "AQAB".to_string() }
}

#[test]
fn undecodable_header_is_refused() {
    match try_check_token("not-a-token", &vec![key("k1")], "pool") {
        TokenCheck::Checked(Err(e)) => assert_eq!(e, ServiceError::JWKSFetchError),
        other => panic!("unexpected outcome {:?}", other),
    }
    match check_token("not-a-token", &vec![], "pool") {
        Err(e) => assert_eq!(e, ServiceError::JWKSFetchError),
        Ok(_) => panic!("an undecodable token was admitted"),
    }
}

#[test]
fn header_without_key_id() {
    assert!(matches!(try_check_token(WITHOUT_KID, &vec![key("k1")], "pool"), TokenCheck::MissingKeyId));
}

#[test]
fn key_id_not_in_key_set() {
    assert!(matches!(try_check_token(WITH_KID, &vec![key("k2")], "pool"), TokenCheck::UnknownKey));
    assert!(matches!(try_check_token(WITH_KID, &vec![], "pool"), TokenCheck::UnknownKey));
}

#[test]
fn token_failing_validation_gets_fixed_claims() {
    match try_check_token(WITH_KID, &vec![key("k2"), key("k1")], "pool") {
        TokenCheck::Checked(Ok(c)) => {
            assert_eq!(c.sub, "testclaims");
            assert_eq!(c.given_name, "testname");
            assert_eq!(c.role, "role");
        }
        other => panic!("unexpected outcome {:?}", other),
    }
}

#[test]
fn performance_summary_needs_rows() {
    assert!(!has_performance_data(0));
    assert!(has_performance_data(1));
    assert!(has_performance_data(7));
}
