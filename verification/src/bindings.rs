//! Calls into the crates this library is built on. Each function here makes
//! one outside call; Verus takes its contract as given and does not look at
//! its body, so every claim below rests on the named crate alone.

use crate::auth::TokenClaims;
use jsonwebtoken::{decode, Algorithm, DecodingKey, Validation};
use serde_json::Value;
use vstd::prelude::*;

verus! {

/// The error of `jsonwebtoken`, carried through as it is.
#[verifier::external_type_specification]
#[verifier::external_body]
pub struct ExTokenError(jsonwebtoken::errors::Error);

/// The number that `uuid::Uuid::parse_str` reads from a text, or `None` where
/// it reports an error. The crate accepts 32 hexadecimal digits, the same in
/// five groups joined by hyphens, that form in braces, and that form after
/// `urn:uuid:`.
pub uninterp spec fn uuid_value(text: Seq<char>) -> Option<u128>;

/// `uuid::Uuid::parse_str`, with the identifier read as a number by
/// `Uuid::as_u128`. The result is a function of the text alone; it is given
/// the name `uuid_value`.
#[verifier::external_body]
pub(crate) fn parse_uuid_value(text: &str) -> (value: Option<u128>)
    ensures
        value == uuid_value(text@),
{
    match uuid::Uuid::parse_str(text) {
        Ok(id) => Some(id.as_u128()),
        Err(_) => None,
    }
}

/// `jsonwebtoken::decode` with the key `DecodingKey::from_secret(secret)` and
/// the validation `Validation::new(Algorithm::HS256)`: the signature is
/// checked with HMAC-SHA256 and the expiry against the clock. From the claims
/// of an accepted token the subject is taken where it is a string, and the
/// expiry where it is an unsigned integer. Acceptance depends on the clock,
/// so nothing is claimed of the result.
#[verifier::external_body]
pub(crate) fn decode_hs256(token: &str, secret: &str) -> Result<
    TokenClaims,
    jsonwebtoken::errors::Error,
> {
    let key = DecodingKey::from_secret(secret.as_bytes());
    let data = decode::<Value>(token, &key, &Validation::new(Algorithm::HS256))?;
    Ok(
        TokenClaims {
            sub: data.claims.get("sub").and_then(Value::as_str).map(str::to_owned),
            exp: data.claims.get("exp").and_then(Value::as_u64),
        },
    )
}

/// The upper-case form of a text, as `str::to_uppercase` gives it: the
/// Unicode case mapping of each character, which may change the length.
pub uninterp spec fn uppercase(text: Seq<char>) -> Seq<char>;

/// The lower-case form of a text, as `str::to_lowercase` gives it.
pub uninterp spec fn lowercase(text: Seq<char>) -> Seq<char>;

/// `str::to_uppercase`. The result is a function of the text alone; it is
/// given the name `uppercase`.
#[verifier::external_body]
pub(crate) fn to_uppercase(text: &str) -> (upper: String)
    ensures
        upper@ == uppercase(text@),
{
    text.to_uppercase()
}

/// `str::to_lowercase`. The result is a function of the text alone; it is
/// given the name `lowercase`.
#[verifier::external_body]
pub(crate) fn to_lowercase(text: &str) -> (lower: String)
    ensures
        lower@ == lowercase(text@),
{
    text.to_lowercase()
}

/// `validator::validate_length` with only an upper bound: whether `text` has
/// at most `max` characters. The crate counts Unicode scalar values
/// (`chars().count()`), which is the length of the string's view.
#[verifier::external_body]
pub(crate) fn length_at_most(text: &str, max: u64) -> (fits: bool)
    ensures
        fits == (text@.len() <= max),
{
    validator::validate_length(text, None, Some(max), None)
}

/// `chrono::Utc::now`, read as nanoseconds since the Unix epoch by
/// `DateTime::timestamp_nanos_opt`, which gives `None` for an instant that
/// does not fit in 64 bits. The result depends on the clock, so nothing is
/// claimed of it.
#[verifier::external_body]
pub(crate) fn utc_now_nanos() -> Option<i64> {
    chrono::Utc::now().timestamp_nanos_opt()
}

/// `uuid::Uuid::new_v4`, read as a number by `Uuid::as_u128`. The result is
/// random, so nothing is claimed of it.
#[verifier::external_body]
pub(crate) fn random_uuid_value() -> u128 {
    uuid::Uuid::new_v4().as_u128()
}

} // verus!
