use jsonwebtoken::{encode, get_current_timestamp, Algorithm, EncodingKey, Header};
use serde_json::{Number, Value};
use time_service::auth::{
    authorize, claimed_user, extract_user_id, identify, parse_bearer, verify, Authorization,
    TokenClaims,
};
use time_service::errors::{AuthError, ServiceError};
use time_service::models::Uuid;

const SECRET: &str = "a shared secret";
const USER: &str = "550e8400-e29b-41d4-a716-446655440000";
const USER_VALUE: u128 = 0x550e8400_e29b_41d4_a716_446655440000;

fn claims(sub: Option<Value>, exp: Option<Value>) -> Value {
    let mut map = serde_json::Map::new();
    if let Some(sub) = sub {
        map.insert("sub".to_string(), sub);
    }
    if let Some(exp) = exp {
        map.insert("exp".to_string(), exp);
    }
    Value::Object(map)
}

fn sign(claims: &Value, secret: &str) -> String {
    encode(&Header::default(), claims, &EncodingKey::from_secret(secret.as_bytes())).unwrap()
}

fn in_an_hour() -> Value {
    Value::Number(Number::from(get_current_timestamp() + 3600))
}

fn an_hour_ago() -> Value {
    Value::Number(Number::from(get_current_timestamp() - 3600))
}

fn token_for(sub: &str) -> String {
    sign(&claims(Some(Value::String(sub.to_string())), Some(in_an_hour())), SECRET)
}

#[test]
fn bearer_header_gives_its_token() {
    assert_eq!(parse_bearer("Bearer abc.def.ghi"), Some("abc.def.ghi"));
    assert_eq!(parse_bearer("  Bearer \t abc  "), Some("abc"));
    assert_eq!(parse_bearer("Bearer\u{3000}abc"), Some("abc"));
}

#[test]
fn other_shapes_are_malformed() {
    assert_eq!(parse_bearer(""), None);
    assert_eq!(parse_bearer("Bearer"), None);
    assert_eq!(parse_bearer("Bearer "), None);
    assert_eq!(parse_bearer("bearer abc"), None);
    assert_eq!(parse_bearer("Basic abc"), None);
    assert_eq!(parse_bearer("Bearer abc def"), None);
    assert_eq!(parse_bearer("Bearerabc"), None);
    assert_eq!(parse_bearer("abc Bearer"), None);
}

#[test]
fn identifiers_are_read_in_every_text_form() {
    let expected = Some(Uuid { value: USER_VALUE });
    assert_eq!(Uuid::parse_str(USER), expected);
    assert_eq!(Uuid::parse_str("550e8400e29b41d4a716446655440000"), expected);
    assert_eq!(Uuid::parse_str("550E8400-E29B-41D4-A716-446655440000"), expected);
    assert_eq!(Uuid::parse_str("{550e8400-e29b-41d4-a716-446655440000}"), expected);
    assert_eq!(Uuid::parse_str("urn:uuid:550e8400-e29b-41d4-a716-446655440000"), expected);
    assert_eq!(
        Uuid::parse_str("00000000-0000-0000-0000-000000000001"),
        Some(Uuid { value: 1 })
    );
}

#[test]
fn other_texts_are_no_identifiers() {
    assert_eq!(Uuid::parse_str(""), None);
    assert_eq!(Uuid::parse_str("42"), None);
    assert_eq!(Uuid::parse_str("550e8400-e29b-41d4-a716-44665544000"), None);
    assert_eq!(Uuid::parse_str("550e8400-e29b-41d4-a716-44665544000g"), None);
    assert_eq!(Uuid::parse_str("550e8400e29b-41d4-a716-4466-55440000"), None);
}

#[test]
fn valid_token_names_its_subject() {
    let header = format!("Bearer {}", token_for(USER));
    assert_eq!(verify(&header, SECRET), Ok(Uuid { value: USER_VALUE }));
}

#[test]
fn verification_is_repeatable() {
    let header = format!("Bearer {}", token_for(USER));
    let first = verify(&header, SECRET);
    let second = verify(&header, SECRET);
    assert_eq!(first, second);
}

#[test]
fn malformed_header_is_reported() {
    let token = token_for(USER);
    assert_eq!(verify(&token, SECRET), Err(AuthError::MalformedHeader));
    assert_eq!(verify(&format!("Token {}", token), SECRET), Err(AuthError::MalformedHeader));
    assert_eq!(verify("", SECRET), Err(AuthError::MalformedHeader));
}

#[test]
fn wrong_secret_is_invalid_token() {
    let header = format!("Bearer {}", token_for(USER));
    assert_eq!(verify(&header, "another secret"), Err(AuthError::InvalidToken));
}

#[test]
fn expired_token_is_invalid() {
    let token = sign(&claims(Some(Value::String(USER.to_string())), Some(an_hour_ago())), SECRET);
    assert_eq!(verify(&format!("Bearer {}", token), SECRET), Err(AuthError::InvalidToken));
}

#[test]
fn garbage_token_is_invalid() {
    assert_eq!(verify("Bearer not-a-token", SECRET), Err(AuthError::InvalidToken));
    assert_eq!(verify("Bearer a.b.c", SECRET), Err(AuthError::InvalidToken));
}

#[test]
fn token_signed_with_another_algorithm_is_invalid() {
    let body = claims(Some(Value::String(USER.to_string())), Some(in_an_hour()));
    let token = encode(
        &Header::new(Algorithm::HS512),
        &body,
        &EncodingKey::from_secret(SECRET.as_bytes()),
    )
    .unwrap();
    assert_eq!(verify(&format!("Bearer {}", token), SECRET), Err(AuthError::InvalidToken));
}

#[test]
fn token_without_subject_is_invalid() {
    let token = sign(&claims(None, Some(in_an_hour())), SECRET);
    assert_eq!(verify(&format!("Bearer {}", token), SECRET), Err(AuthError::InvalidToken));
    let numeric = sign(&claims(Some(Value::Number(Number::from(7))), Some(in_an_hour())), SECRET);
    assert_eq!(verify(&format!("Bearer {}", numeric), SECRET), Err(AuthError::InvalidToken));
}

#[test]
fn token_without_expiry_is_invalid() {
    let token = sign(&claims(Some(Value::String(USER.to_string())), None), SECRET);
    assert_eq!(verify(&format!("Bearer {}", token), SECRET), Err(AuthError::InvalidToken));
}

#[test]
fn subject_that_is_no_identifier_is_invalid_subject() {
    let header = format!("Bearer {}", token_for("alice"));
    assert_eq!(verify(&header, SECRET), Err(AuthError::InvalidSubject));
}

#[test]
fn claims_decide_the_user() {
    let full = TokenClaims { sub: Some(USER.to_string()), exp: Some(1) };
    assert_eq!(claimed_user(Some(full)), Ok(Uuid { value: USER_VALUE }));
    let no_subject = TokenClaims { sub: None, exp: Some(1) };
    assert_eq!(claimed_user(Some(no_subject)), Err(AuthError::InvalidToken));
    let no_expiry = TokenClaims { sub: Some(USER.to_string()), exp: None };
    assert_eq!(claimed_user(Some(no_expiry)), Err(AuthError::InvalidToken));
    let neither = TokenClaims { sub: Some("alice".to_string()), exp: None };
    assert_eq!(claimed_user(Some(neither)), Err(AuthError::InvalidToken));
    let stranger = TokenClaims { sub: Some("alice".to_string()), exp: Some(1) };
    assert_eq!(claimed_user(Some(stranger)), Err(AuthError::InvalidSubject));
    assert_eq!(claimed_user(None), Err(AuthError::InvalidToken));
}

#[test]
fn missing_header_is_reported() {
    assert_eq!(identify(Authorization::Missing, SECRET), Err(AuthError::MissingHeader));
    assert_eq!(
        extract_user_id(Authorization::Missing, SECRET),
        Err(ServiceError::Unauthorized("Authorization header is missing".to_string()))
    );
}

#[test]
fn every_failure_surfaces_as_unauthorized() {
    assert_eq!(
        extract_user_id(Authorization::Value("Bearer"), SECRET),
        Err(ServiceError::Unauthorized("Invalid token format".to_string()))
    );
    assert_eq!(
        extract_user_id(Authorization::Value("Bearer nonsense"), SECRET),
        Err(ServiceError::Unauthorized("Invalid token".to_string()))
    );
    let stranger = format!("Bearer {}", token_for("alice"));
    assert_eq!(
        extract_user_id(Authorization::Value(&stranger), SECRET),
        Err(ServiceError::Unauthorized("Invalid user ID in token".to_string()))
    );
    assert_eq!(
        extract_user_id(Authorization::Unreadable, SECRET),
        Err(ServiceError::Unauthorized("Invalid Authorization header".to_string()))
    );
    assert_eq!(identify(Authorization::Unreadable, SECRET), Err(AuthError::UnreadableHeader));
    assert_eq!(
        authorize(Err(AuthError::UnreadableHeader)),
        Err(ServiceError::Unauthorized("Invalid Authorization header".to_string()))
    );
}

#[test]
fn identified_caller_is_passed_on() {
    let header = format!("Bearer {}", token_for(USER));
    let identified = extract_user_id(Authorization::Value(&header), SECRET);
    assert_eq!(identified, Ok(Uuid { value: USER_VALUE }));
    assert_eq!(authorize(Ok(Uuid { value: 9 })), Ok(Uuid { value: 9 }));
}
