//! The authenticator: from the value of an `Authorization` header to the
//! user it speaks for.
//!
//! The header must have the shape `Bearer <token>`. The token is a signed
//! structure with a subject and an expiry; its signature and expiry are
//! checked by the `jsonwebtoken` crate, and its subject is read as a user
//! identifier by the `uuid` crate. Nothing is kept between calls.

use crate::bindings::{decode_hs256, uuid_value};
use crate::errors::{auth_failure, AuthError, ServiceError};
use crate::models::Uuid;
use crate::text::{chars_of, piece_equals, word_spans, words};
use vstd::prelude::*;
use vstd::string::StrSliceExecFns;

verus! {

/// The `Authorization` header of a request, as the transport delivers it.
#[derive(Clone, Copy, Debug, PartialEq, Eq)]
pub enum Authorization<'a> {
    /// The request has no such header.
    Missing,
    /// The header's value is not readable text.
    Unreadable,
    /// The header's value.
    Value(&'a str),
}

/// What an `Authorization` stands for.
pub enum AuthorizationView {
    Missing,
    Unreadable,
    Value(Seq<char>),
}

impl<'a> View for Authorization<'a> {
    type V = AuthorizationView;

    open spec fn view(&self) -> AuthorizationView {
        match *self {
            Authorization::Missing => AuthorizationView::Missing,
            Authorization::Unreadable => AuthorizationView::Unreadable,
            Authorization::Value(header) => AuthorizationView::Value(header@),
        }
    }
}

/// What the library reads of a token's claims.
#[derive(Debug, PartialEq, Eq)]
pub struct TokenClaims {
    /// The subject, where the claims hold one as a string.
    pub sub: Option<String>,
    /// The expiry in seconds since the Unix epoch, where the claims hold one
    /// as an unsigned integer.
    pub exp: Option<u64>,
}

/// What a `TokenClaims` stands for.
pub struct TokenClaimsView {
    pub sub: Option<Seq<char>>,
    pub exp: Option<u64>,
}

impl View for TokenClaims {
    type V = TokenClaimsView;

    open spec fn view(&self) -> TokenClaimsView {
        TokenClaimsView { sub: self.sub.deep_view(), exp: self.exp }
    }
}

impl DeepView for TokenClaims {
    type V = TokenClaimsView;

    open spec fn deep_view(&self) -> TokenClaimsView {
        self@
    }
}

/// The token of a header value of the shape `Bearer <token>`: the value is
/// two words, the first of them `Bearer`, and the token is the second.
pub open spec fn bearer_token(header: Seq<char>) -> Option<Seq<char>> {
    let parts = words(header);
    if parts.len() == 2 && parts[0] == "Bearer"@ {
        Some(parts[1])
    } else {
        None
    }
}

/// The user that a token's claims name, where `None` stands for a token
/// that was not accepted. Claims without a subject or without an expiry are
/// no valid token; a subject that is not an identifier is an invalid subject.
pub open spec fn user_of_claims(claims: Option<TokenClaimsView>) -> Result<Uuid, AuthError> {
    match claims {
        None => Err(AuthError::InvalidToken),
        Some(claims) => if claims.sub is None || claims.exp is None {
            Err(AuthError::InvalidToken)
        } else {
            match uuid_value(claims.sub->0) {
                Some(value) => Ok(Uuid { value }),
                None => Err(AuthError::InvalidSubject),
            }
        },
    }
}

/// How the outcome of authentication surfaces to a handler: a user as
/// itself, a failure as `Unauthorized` with its message.
pub open spec fn surfaces_as(
    outcome: Result<Uuid, AuthError>,
    surfaced: Result<Uuid, ServiceError>,
) -> bool {
    match outcome {
        Ok(user_id) => surfaced == Ok::<Uuid, ServiceError>(user_id),
        Err(error) => surfaced matches Err(shown) && shown@ == auth_failure(error),
    }
}

/// Takes the token out of a header value of the shape `Bearer <token>`.
pub fn parse_bearer(header: &str) -> (token: Option<&str>)
    ensures
        match bearer_token(header@) {
            Some(text) => token matches Some(found) && found@ == text,
            None => token is None,
        },
{
    let chars = chars_of(header);
    let spans = word_spans(&chars);
    if spans.len() != 2 {
        return None;
    }
    let scheme = chars_of("Bearer");
    if !piece_equals(&chars, spans[0], &scheme) {
        return None;
    }
    let span = spans[1];
    Some(header.substring_char(span.0, span.1))
}

/// The user that a token's claims name; `None` stands for a token that was
/// not accepted.
pub fn claimed_user(claims: Option<TokenClaims>) -> (outcome: Result<Uuid, AuthError>)
    ensures
        outcome == user_of_claims(claims.deep_view()),
{
    let claims = match claims {
        Some(claims) => claims,
        None => {
            return Err(AuthError::InvalidToken);
        },
    };
    if claims.exp.is_none() {
        return Err(AuthError::InvalidToken);
    }
    match claims.sub {
        None => Err(AuthError::InvalidToken),
        Some(subject) => match Uuid::parse_str(subject.as_str()) {
            Some(user_id) => Ok(user_id),
            None => Err(AuthError::InvalidSubject),
        },
    }
}

/// Verifies the value of an `Authorization` header against the shared
/// secret and gives the user it speaks for.
///
/// A value that is not of the shape `Bearer <token>` is malformed. For one
/// that is, the token's signature and expiry decide, and with them the
/// clock: the outcome is that of `claimed_user` for whatever decoding gave.
pub fn verify(raw_header: &str, secret: &str) -> (outcome: Result<Uuid, AuthError>)
    ensures
        bearer_token(raw_header@) is None ==> outcome == Err::<Uuid, AuthError>(
            AuthError::MalformedHeader,
        ),
        bearer_token(raw_header@) is Some ==> exists|claims: Option<TokenClaimsView>|
            outcome == #[trigger] user_of_claims(claims),
{
    match parse_bearer(raw_header) {
        None => Err(AuthError::MalformedHeader),
        Some(token) => {
            let claims = match decode_hs256(token, secret) {
                Ok(claims) => Some(claims),
                Err(_) => None,
            };
            claimed_user(claims)
        },
    }
}

/// What identifying the caller of a request may give. A request without the
/// header has no caller, nor has one whose header is unreadable or
/// malformed; for a well-shaped header the token's claims decide.
pub open spec fn may_identify(
    authorization: AuthorizationView,
    outcome: Result<Uuid, AuthError>,
) -> bool {
    match authorization {
        AuthorizationView::Missing => outcome == Err::<Uuid, AuthError>(AuthError::MissingHeader),
        AuthorizationView::Unreadable => outcome == Err::<Uuid, AuthError>(
            AuthError::UnreadableHeader,
        ),
        AuthorizationView::Value(header) => if bearer_token(header) is None {
            outcome == Err::<Uuid, AuthError>(AuthError::MalformedHeader)
        } else {
            exists|claims: Option<TokenClaimsView>| outcome == #[trigger] user_of_claims(claims)
        },
    }
}

/// Identifies the caller of a request from its `Authorization` header, if it
/// has one.
pub fn identify(authorization: Authorization, jwt_secret: &str) -> (outcome: Result<
    Uuid,
    AuthError,
>)
    ensures
        may_identify(authorization@, outcome),
{
    match authorization {
        Authorization::Missing => Err(AuthError::MissingHeader),
        Authorization::Unreadable => Err(AuthError::UnreadableHeader),
        Authorization::Value(header) => verify(header, jwt_secret),
    }
}

/// Surfaces the outcome of authentication to a handler.
pub fn authorize(outcome: Result<Uuid, AuthError>) -> (surfaced: Result<Uuid, ServiceError>)
    ensures
        surfaces_as(outcome, surfaced),
{
    match outcome {
        Ok(user_id) => Ok(user_id),
        Err(error) => Err(ServiceError::from_auth(error)),
    }
}

/// Identifies the caller of a request from its `Authorization` header, if it
/// has one. Every failure surfaces as `Unauthorized`.
pub fn extract_user_id(authorization: Authorization, jwt_secret: &str) -> (surfaced: Result<
    Uuid,
    ServiceError,
>)
    ensures
        exists|outcome: Result<Uuid, AuthError>| #[trigger]
            may_identify(authorization@, outcome) && surfaces_as(outcome, surfaced),
{
    authorize(identify(authorization, jwt_secret))
}

} // verus!
