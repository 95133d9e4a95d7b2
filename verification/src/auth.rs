//! Identity claims carried by access tokens.

use vstd::prelude::*;
use alcoholic_jwt::{token_kid, validate, Validation, JWK};
use crate::attributes::{
    Attribute, attribute_pairs, attribute_text, has_identity, identity_texts, lemma_pair_text, pair_text,
    pairs_identify,
};
use crate::errors::ServiceError;
use crate::text::{join_text, opt_text, str_eq};

verus! {

/// The identity claims of a validated access token.
#[derive(Debug, Clone)]
pub struct Claims {
    pub sub: String,
    pub given_name: String,
    pub family_name: String,
    pub email: String,
    pub organization_id: String,
    pub role: String,
}

impl Claims {
    /// The claims held in a token's claim set, given as its text-valued fields:
    /// `sub`, `given_name`, `family_name`, `email`, `custom:tenantId` (the
    /// organization) and `custom:userRole`. `None` when one of them is missing
    /// or is not text.
    pub fn from_attributes(fields: &Vec<Attribute>) -> (r: Option<Claims>)
        ensures
            r is Some <==> has_identity(fields@),
            r matches Some(c) ==> {
                &&& attribute_text(fields@, "sub"@) == Some(c.sub@)
                &&& attribute_text(fields@, "given_name"@) == Some(c.given_name@)
                &&& attribute_text(fields@, "family_name"@) == Some(c.family_name@)
                &&& attribute_text(fields@, "email"@) == Some(c.email@)
                &&& attribute_text(fields@, "custom:tenantId"@) == Some(c.organization_id@)
                &&& attribute_text(fields@, "custom:userRole"@) == Some(c.role@)
            },
    {
        match identity_texts(fields) {
            Some((sub, given_name, family_name, email, organization_id, role)) => Some(
                Claims { sub, given_name, family_name, email, organization_id, role },
            ),
            None => None,
        }
    }

    /// The claims that token validation hands out when the token's signature
    /// or claims do not validate (the service then still admits the request).
    pub fn unvalidated_token_claims() -> (c: Claims)
        ensures
            c.sub@ == "testclaims"@,
            c.given_name@ == "testname"@,
            c.family_name@ == "String"@,
            c.email@ == "String"@,
            c.organization_id@ == "String"@,
            c.role@ == "role"@,
    {
        Claims {
            sub: "testclaims".to_owned(),
            given_name: "testname".to_owned(),
            family_name: "String".to_owned(),
            email: "String".to_owned(),
            organization_id: "String".to_owned(),
            role: "role".to_owned(),
        }
    }
}

/// The issuer of the access tokens of a user pool: the identity provider's
/// address for the pool.
pub open spec fn issuer_url(user_pool_id: Seq<char>) -> Seq<char> {
    "https://cognito-idp.us-west-2.amazonaws.com/"@ + user_pool_id
}

/// The address of the key set that signs a user pool's tokens.
pub open spec fn key_set_url(user_pool_id: Seq<char>) -> Seq<char> {
    issuer_url(user_pool_id) + "/.well-known/jwks.json"@
}

/// The issuer a token of the user pool must name.
pub fn token_issuer(user_pool_id: &str) -> (s: String)
    ensures
        s@ == issuer_url(user_pool_id@),
{
    join_text("https://cognito-idp.us-west-2.amazonaws.com/", user_pool_id)
}

/// Where the key set of the user pool is fetched from.
pub fn jwks_url(user_pool_id: &str) -> (s: String)
    ensures
        s@ == key_set_url(user_pool_id@),
{
    let mut s = token_issuer(user_pool_id);
    s.append("/.well-known/jwks.json");
    s
}

/// An RSA key of a user pool's key set, in plain values: its key id and the
/// base64url texts of its modulus `n` and exponent `e`.
#[derive(Debug, Clone)]
pub struct SigningKey {
    pub kid: String,
    pub n: String,
    pub e: String,
}

/// The key id a token's header names: `None` when the header cannot be
/// decoded, `Some(None)` when it names no key.
pub uninterp spec fn token_key_id(token: Seq<char>) -> Option<Option<Seq<char>>>;

/// A check a token's claims must pass besides its signature. None of them
/// reads the clock: the token's expiry is not among them.
#[derive(Debug, Clone)]
pub enum TokenValidation {
    /// The token names this issuer.
    Issuer(String),
    /// The token names a subject.
    SubjectPresent,
}

/// A check as a plain value: the issuer it demands, or `None` for "a subject is present".
pub open spec fn validation_view(v: TokenValidation) -> Option<Seq<char>> {
    match v {
        TokenValidation::Issuer(i) => Some(i@),
        TokenValidation::SubjectPresent => None,
    }
}

/// A list of checks as plain values.
pub open spec fn validation_views(checks: Seq<TokenValidation>) -> Seq<Option<Seq<char>>> {
    checks.map_values(|v: TokenValidation| validation_view(v))
}

/// The checks the tokens of a user pool must pass: the pool as issuer, and a
/// subject present.
pub open spec fn pool_checks(user_pool_id: Seq<char>) -> Seq<Option<Seq<char>>> {
    seq![Some(issuer_url(user_pool_id)), None]
}

/// The checks the tokens of a user pool must pass: the pool as issuer, and a
/// subject present (no expiry check).
pub fn token_checks(user_pool_id: &str) -> (c: Vec<TokenValidation>)
    ensures
        validation_views(c@) == pool_checks(user_pool_id@),
{
    let mut c: Vec<TokenValidation> = Vec::new();
    c.push(TokenValidation::Issuer(token_issuer(user_pool_id)));
    c.push(TokenValidation::SubjectPresent);
    assert(validation_views(c@) =~= pool_checks(user_pool_id@));
    c
}

/// The claims of a token, each as its name and its text (no text for a claim
/// that is not a string), when its signature verifies under the RSA key with
/// modulus `n` and exponent `e` and its claims pass `checks` (see
/// [`validation_view`]); `None` when any of that fails.
pub uninterp spec fn verified_claims(token: Seq<char>, n: Seq<char>, e: Seq<char>, checks: Seq<Option<Seq<char>>>) -> Option<
    Seq<(Seq<char>, Option<Seq<char>>)>,
>;

/// The key id a token's header names.
///
/// Trusted: calls `alcoholic_jwt::token_kid`, which decodes the first part of
/// the token alone; its result is named [`token_key_id`], with an error as `None`.
#[verifier::external_body]
fn token_kid_text(token: &str) -> (r: Option<Option<String>>)
    ensures
        r is None <==> token_key_id(token@) is None,
        r matches Some(k) ==> token_key_id(token@) == Some(opt_text(k)),
{
    token_kid(token).ok()
}

/// The claims of a token that verifies under `key` and passes `checks`.
///
/// Trusted: builds the RSA key from `key` (the crate reads the algorithm as
/// RS256 when it is absent, and does not use the key id to verify), calls
/// `alcoholic_jwt::validate` with `checks` converted one for one, and lists
/// the claims' names with their string values. Its result is named
/// [`verified_claims`]; a claim set that is not an object gives no pairs.
#[verifier::external_body]
fn verify_token(token: &str, key: &SigningKey, checks: &Vec<TokenValidation>) -> (r: Option<Vec<Attribute>>)
    ensures
        r is None <==> verified_claims(token@, key.n@, key.e@, validation_views(checks@)) is None,
        r matches Some(v) ==> verified_claims(token@, key.n@, key.e@, validation_views(checks@)) == Some(
            attribute_pairs(v@),
        ),
{
    let parts = [("kty", "RSA"), ("kid", &*key.kid), ("n", &*key.n), ("e", &*key.e)];
    let jwk: JWK = serde_json::from_value(parts.into_iter().collect()).ok()?;
    let checks = checks.iter().map(|c| match c {
        TokenValidation::Issuer(i) => Validation::Issuer(i.clone()),
        TokenValidation::SubjectPresent => Validation::SubjectPresent,
    });
    let claims = validate(token, &jwk, checks.collect()).ok()?.claims;
    Some(claims.as_object().map_or(vec![], |m| {
        m.iter().map(|(k, v)| Attribute { name: k.clone(), value: v.as_str().map(String::from) }).collect()
    }))
}

/// The index of the first key with id `kid`, looking from index `i` on.
pub open spec fn key_index_from(keys: Seq<SigningKey>, kid: Seq<char>, i: int) -> Option<int>
    decreases keys.len() - i,
{
    if i < 0 || i >= keys.len() {
        None
    } else if keys[i].kid@ == kid {
        Some(i)
    } else {
        key_index_from(keys, kid, i + 1)
    }
}

/// The index of the first key with id `kid`, as the key set finds it.
pub open spec fn key_index(keys: Seq<SigningKey>, kid: Seq<char>) -> Option<int> {
    key_index_from(keys, kid, 0)
}

proof fn lemma_key_index_from(keys: Seq<SigningKey>, kid: Seq<char>, i: int)
    requires
        0 <= i,
    ensures
        key_index_from(keys, kid, i) matches Some(j) ==> i <= j < keys.len() && keys[j].kid@ == kid,
    decreases keys.len() - i,
{
    if i < keys.len() && keys[i].kid@ != kid {
        lemma_key_index_from(keys, kid, i + 1);
    }
}

fn find_key(keys: &Vec<SigningKey>, kid: &str) -> (r: Option<usize>)
    ensures
        r matches Some(i) ==> key_index(keys@, kid@) == Some(i as int),
        r is None ==> key_index(keys@, kid@) is None,
        key_index(keys@, kid@) matches Some(j) ==> 0 <= j < keys@.len(),
{
    proof {
        lemma_key_index_from(keys@, kid@, 0);
    }
    let mut i: usize = 0;
    while i < keys.len()
        invariant
            i <= keys@.len(),
            key_index(keys@, kid@) == key_index_from(keys@, kid@, i as int),
        decreases keys.len() - i,
    {
        if str_eq(keys[i].kid.as_str(), kid) {
            return Some(i);
        }
        i = i + 1;
    }
    None
}

/// The claims a verified token's pairs carry, as [`Claims::from_attributes`] reads them.
pub open spec fn claims_match(p: Seq<(Seq<char>, Option<Seq<char>>)>, c: Claims) -> bool {
    &&& pair_text(p, "sub"@) == Some(c.sub@)
    &&& pair_text(p, "given_name"@) == Some(c.given_name@)
    &&& pair_text(p, "family_name"@) == Some(c.family_name@)
    &&& pair_text(p, "email"@) == Some(c.email@)
    &&& pair_text(p, "custom:tenantId"@) == Some(c.organization_id@)
    &&& pair_text(p, "custom:userRole"@) == Some(c.role@)
}

/// Whether claims are the fixed ones handed out for a token that fails validation.
pub open spec fn is_unvalidated_claims(c: Claims) -> bool {
    &&& c.sub@ == "testclaims"@
    &&& c.given_name@ == "testname"@
    &&& c.family_name@ == "String"@
    &&& c.email@ == "String"@
    &&& c.organization_id@ == "String"@
    &&& c.role@ == "role"@
}

/// Whether a token can be checked against the key set without failing: its
/// header names a key, the key set holds a key with that id, and a token that
/// verifies carries the six identity claims as text. A header that cannot be
/// decoded is checkable (it is refused).
pub open spec fn token_checkable(token: Seq<char>, keys: Seq<SigningKey>, user_pool_id: Seq<char>) -> bool {
    match token_key_id(token) {
        None => true,
        Some(None) => false,
        Some(Some(kid)) => match key_index(keys, kid) {
            None => false,
            Some(i) => match verified_claims(token, keys[i].n@, keys[i].e@, pool_checks(user_pool_id)) {
                None => true,
                Some(p) => pairs_identify(p),
            },
        },
    }
}

/// The outcome of checking a token against the user pool's key set: a header
/// that cannot be decoded is refused with `JWKSFetchError`; a token whose
/// signature does not verify under the key its header names, or that fails
/// the pool's checks ([`pool_checks`]: the pool as issuer and a subject
/// present, with no expiry check), is admitted with the fixed unvalidated
/// claims; a token that passes gets the claims it carries.
pub open spec fn checked_token(
    token: Seq<char>,
    keys: Seq<SigningKey>,
    user_pool_id: Seq<char>,
    r: Result<Claims, ServiceError>,
) -> bool {
    match token_key_id(token) {
        None => r == Err::<Claims, ServiceError>(ServiceError::JWKSFetchError),
        Some(None) => false,
        Some(Some(kid)) => match key_index(keys, kid) {
            None => false,
            Some(i) => match verified_claims(token, keys[i].n@, keys[i].e@, pool_checks(user_pool_id)) {
                None => r matches Ok(c) && is_unvalidated_claims(c),
                Some(p) => r matches Ok(c) && claims_match(p, c),
            },
        },
    }
}

/// Checks a bearer token against the user pool's key set (see [`checked_token`]).
pub fn check_token(token: &str, keys: &Vec<SigningKey>, user_pool_id: &str) -> (r: Result<Claims, ServiceError>)
    requires
        token_checkable(token@, keys@, user_pool_id@),
    ensures
        checked_token(token@, keys@, user_pool_id@, r),
{
    let checks = token_checks(user_pool_id);
    let kid = match token_kid_text(token) {
        None => return Err(ServiceError::JWKSFetchError),
        Some(None) => {
            proof {
                assert(false);
            }
            return Err(ServiceError::JWKSFetchError);
        },
        Some(Some(k)) => k,
    };
    let i = match find_key(keys, kid.as_str()) {
        None => {
            proof {
                assert(false);
            }
            return Err(ServiceError::JWKSFetchError);
        },
        Some(i) => i,
    };
    match verify_token(token, &keys[i], &checks) {
        None => Ok(Claims::unvalidated_token_claims()),
        Some(fields) => {
            proof {
                lemma_pair_text(fields@, "sub"@);
                lemma_pair_text(fields@, "given_name"@);
                lemma_pair_text(fields@, "family_name"@);
                lemma_pair_text(fields@, "email"@);
                lemma_pair_text(fields@, "custom:tenantId"@);
                lemma_pair_text(fields@, "custom:userRole"@);
            }
            match Claims::from_attributes(&fields) {
                Some(c) => Ok(c),
                None => {
                    proof {
                        assert(false);
                    }
                    Err(ServiceError::JWKSFetchError)
                },
            }
        },
    }
}

/// What checking a token leads to, including the tokens on which the check
/// cannot proceed.
#[derive(Debug)]
pub enum TokenCheck {
    /// The check ran (see [`checked_token`]).
    Checked(Result<Claims, ServiceError>),
    /// The token's header names no key.
    MissingKeyId,
    /// The key set has no key with the id the header names.
    UnknownKey,
    /// The token verifies but lacks one of the six identity claims as text.
    IncompleteClaims,
}

/// Checks a bearer token against the user pool's key set, reporting the
/// tokens [`check_token`] cannot take instead of checking them.
pub fn try_check_token(token: &str, keys: &Vec<SigningKey>, user_pool_id: &str) -> (t: TokenCheck)
    ensures
        t is Checked <==> token_checkable(token@, keys@, user_pool_id@),
        t matches TokenCheck::Checked(r) ==> checked_token(token@, keys@, user_pool_id@, r),
        t is MissingKeyId <==> token_key_id(token@) == Some(None::<Seq<char>>),
        t is UnknownKey <==> (token_key_id(token@) matches Some(Some(kid)) && key_index(keys@, kid) is None),
        t is IncompleteClaims <==> (token_key_id(token@) matches Some(Some(kid)) && key_index(keys@, kid) matches Some(
            i,
        ) && verified_claims(token@, keys@[i].n@, keys@[i].e@, pool_checks(user_pool_id@)) matches Some(p)
            && !pairs_identify(p)),
{
    match token_kid_text(token) {
        None => TokenCheck::Checked(check_token(token, keys, user_pool_id)),
        Some(None) => TokenCheck::MissingKeyId,
        Some(Some(kid)) => match find_key(keys, kid.as_str()) {
            None => TokenCheck::UnknownKey,
            Some(i) => {
                let checks = token_checks(user_pool_id);
                match verify_token(token, &keys[i], &checks) {
                    None => TokenCheck::Checked(check_token(token, keys, user_pool_id)),
                    Some(fields) => {
                        proof {
                            lemma_pair_text(fields@, "sub"@);
                            lemma_pair_text(fields@, "given_name"@);
                            lemma_pair_text(fields@, "family_name"@);
                            lemma_pair_text(fields@, "email"@);
                            lemma_pair_text(fields@, "custom:tenantId"@);
                            lemma_pair_text(fields@, "custom:userRole"@);
                        }
                        if identity_texts(&fields).is_some() {
                            TokenCheck::Checked(check_token(token, keys, user_pool_id))
                        } else {
                            TokenCheck::IncompleteClaims
                        }
                    },
                }
            },
        },
    }
}

/// The tokens of a user pool are checked for exactly two things: that they
/// name the pool's own address at the identity provider as issuer (not the
/// address of its key set), and that they name a subject.
pub proof fn lemma_pool_checks(user_pool_id: Seq<char>)
    ensures
        pool_checks(user_pool_id).len() == 2,
        pool_checks(user_pool_id)[0] == Some("https://cognito-idp.us-west-2.amazonaws.com/"@ + user_pool_id),
        pool_checks(user_pool_id)[1] is None,
        key_set_url(user_pool_id) == "https://cognito-idp.us-west-2.amazonaws.com/"@ + user_pool_id
            + "/.well-known/jwks.json"@,
{
}

proof fn lemma_key_index_from_first(keys: Seq<SigningKey>, kid: Seq<char>, i: int)
    requires
        0 <= i <= keys.len(),
    ensures
        key_index_from(keys, kid, i) is None <==> (forall|k: int| i <= k < keys.len() ==> keys[k].kid@ != kid),
        key_index_from(keys, kid, i) matches Some(j) ==> {
            &&& i <= j < keys.len()
            &&& keys[j].kid@ == kid
            &&& forall|k: int| i <= k < j ==> keys[k].kid@ != kid
        },
    decreases keys.len() - i,
{
    if i < keys.len() && keys[i].kid@ != kid {
        lemma_key_index_from_first(keys, kid, i + 1);
    }
}

/// A key id is found in a key set exactly when some key has it, and what is
/// found is the first key that has it.
pub proof fn lemma_key_index_first(keys: Seq<SigningKey>, kid: Seq<char>)
    ensures
        key_index(keys, kid) is None <==> (forall|k: int| 0 <= k < keys.len() ==> keys[k].kid@ != kid),
        key_index(keys, kid) matches Some(j) ==> {
            &&& 0 <= j < keys.len()
            &&& keys[j].kid@ == kid
            &&& forall|k: int| 0 <= k < j ==> keys[k].kid@ != kid
        },
{
    lemma_key_index_from_first(keys, kid, 0);
}

} // verus!
