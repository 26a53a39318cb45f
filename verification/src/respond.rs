//! What an HTTP caller is answered when a request fails.
//!
//! Every error of the backend becomes one [`ApiErrorResponse`]: an identifier,
//! a fixed message and a status code. The detail of the error is logged, never
//! sent, so a refused caller cannot tell a missing resource from one it may
//! not see.

use std::collections::HashMap;

use vstd::prelude::*;
use vstd::string::*;

use crate::error::CoreError;

verus! {

/// Error information sent for an unprocessable entity: an identifier, a
/// message, and the messages of each offending field.
#[derive(Debug, Clone)]
pub struct ApiErrorInfo {
    pub id: String,
    pub error: String,
    pub errors: HashMap<String, Vec<String>>,
}

/// Why extracting the caller from a request failed.
#[derive(Debug)]
pub enum ExtractorError {
    InvalidJwt,
    NotLoggedIn,
    /// The `Authorization` header holds characters that are not visible ASCII.
    InvalidHeaderCharacters(String),
    Unexpected(String),
}

/// The kinds of JSON Web Token failures the responses tell apart.
#[derive(Debug, Clone, Copy, PartialEq, Eq, Structural)]
pub enum JwtErrorKind {
    InvalidToken,
    InvalidSignature,
    InvalidSubject,
    InvalidIssuer,
    ExpiredSignature,
    /// Any other kind.
    Other,
}

/// Why the authenticator rejected a token or could not check it.
#[derive(Debug, Clone, Copy, PartialEq, Eq, Structural)]
pub enum AuthenticatorError {
    /// The provider's signing keys were never fetched.
    NoJwk,
    /// The provider could not be reached.
    RequestError,
    /// The token failed to decode or validate.
    JwtError(JwtErrorKind),
    InvalidSignature,
    AuthenticationFailure,
    /// The token was issued for another realm.
    InvalidRealm,
    /// Any other rejection the authenticator describes in words.
    Message,
}

/// Everything that can make a request fail.
#[derive(Debug)]
pub enum ApiError {
    Unauthorized,
    NotFound(String),
    IoError,
    CoreError(CoreError),
    ExtractorError(ExtractorError),
    AuthenticatorError(AuthenticatorError),
    StorageError,
    /// The rate limiter refused the request; retry after that many seconds.
    TooManyRequests(u64),
    Unexpected,
}

/// The identifier of an answered error.
#[derive(Debug, Clone, Copy, PartialEq, Eq, Structural)]
pub enum ApiErrorId {
    Unexpected,
    Unauthorized,
    Forbidden,
    TokenExpired,
    NotFound,
    HeaderInvalidAsciiCharacters,
    TooManyRequests,
}

/// The standard error answer of the API.
#[derive(Debug)]
pub struct ApiErrorResponse {
    pub id: ApiErrorId,
    pub error: String,
    /// The HTTP status, not sent in the body.
    pub status_code: u16,
}

/// The identifier, message and status of an answer.
pub open spec fn answer_view(r: ApiErrorResponse) -> (ApiErrorId, Seq<char>, u16) {
    (r.id, r.error@, r.status_code)
}

pub open spec fn unexpected_answer() -> (ApiErrorId, Seq<char>, u16) {
    (ApiErrorId::Unexpected, "An unexpected error occurred."@, 500)
}

pub open spec fn unauthorized_answer() -> (ApiErrorId, Seq<char>, u16) {
    (ApiErrorId::Unauthorized, "You need to be logged in to access this ressource"@, 401)
}

pub open spec fn forbidden_answer() -> (ApiErrorId, Seq<char>, u16) {
    (ApiErrorId::Forbidden, "You are not allowed to access this ressource."@, 403)
}

pub open spec fn not_found_answer() -> (ApiErrorId, Seq<char>, u16) {
    (ApiErrorId::NotFound, "Not found."@, 404)
}

pub open spec fn token_expired_answer() -> (ApiErrorId, Seq<char>, u16) {
    (ApiErrorId::TokenExpired, "Your authentication token has expired. Please log back in."@, 401)
}

pub open spec fn bad_header_answer() -> (ApiErrorId, Seq<char>, u16) {
    (
        ApiErrorId::HeaderInvalidAsciiCharacters,
        "Your authentication token has expired. Please log back in."@,
        400,
    )
}

pub open spec fn too_many_requests_answer() -> (ApiErrorId, Seq<char>, u16) {
    (ApiErrorId::TooManyRequests, "Too many requests."@, 429)
}

/// What a token failure is answered.
pub open spec fn jwt_answer(kind: JwtErrorKind) -> (ApiErrorId, Seq<char>, u16) {
    match kind {
        JwtErrorKind::InvalidToken | JwtErrorKind::InvalidSubject | JwtErrorKind::InvalidIssuer
        | JwtErrorKind::InvalidSignature => forbidden_answer(),
        JwtErrorKind::ExpiredSignature => token_expired_answer(),
        JwtErrorKind::Other => unexpected_answer(),
    }
}

/// What an authenticator failure is answered. An expired token keeps its own
/// 401; any other token failure that reaches this far is a server fault.
pub open spec fn authenticator_answer(e: AuthenticatorError) -> (ApiErrorId, Seq<char>, u16) {
    match e {
        AuthenticatorError::InvalidSignature | AuthenticatorError::AuthenticationFailure => {
            forbidden_answer()
        },
        AuthenticatorError::JwtError(JwtErrorKind::ExpiredSignature) => token_expired_answer(),
        _ => unexpected_answer(),
    }
}

/// What a failed extraction is answered.
pub open spec fn extractor_answer(e: ExtractorError) -> (ApiErrorId, Seq<char>, u16) {
    match e {
        ExtractorError::InvalidJwt | ExtractorError::NotLoggedIn => unauthorized_answer(),
        ExtractorError::Unexpected(_) => unexpected_answer(),
        ExtractorError::InvalidHeaderCharacters(_) => bad_header_answer(),
    }
}

/// What a domain error is answered: `NotFound` as such, anything else as an
/// unexpected fault.
pub open spec fn core_answer(e: CoreError) -> (ApiErrorId, Seq<char>, u16) {
    match e {
        CoreError::NotFound(_) => not_found_answer(),
        _ => unexpected_answer(),
    }
}

/// What a failed request is answered.
pub open spec fn api_answer(e: ApiError) -> (ApiErrorId, Seq<char>, u16) {
    match e {
        ApiError::Unauthorized => unauthorized_answer(),
        ApiError::NotFound(_) => not_found_answer(),
        ApiError::IoError => unexpected_answer(),
        ApiError::CoreError(c) => core_answer(c),
        ApiError::ExtractorError(x) => extractor_answer(x),
        ApiError::AuthenticatorError(a) => authenticator_answer(a),
        ApiError::StorageError => unexpected_answer(),
        ApiError::TooManyRequests(_) => too_many_requests_answer(),
        ApiError::Unexpected => unexpected_answer(),
    }
}

fn answer(id: ApiErrorId, error: &str, status_code: u16) -> (r: ApiErrorResponse)
    ensures
        answer_view(r) == (id, error@, status_code),
{
    ApiErrorResponse { id, error: String::from_str(error), status_code }
}

impl ApiErrorResponse {
    /// Template for unexpected errors.
    pub fn unexpected() -> (r: ApiErrorResponse)
        ensures
            answer_view(r) == unexpected_answer(),
    {
        answer(ApiErrorId::Unexpected, "An unexpected error occurred.", 500)
    }

    /// Template for callers that are not logged in.
    pub fn unauthorized() -> (r: ApiErrorResponse)
        ensures
            answer_view(r) == unauthorized_answer(),
    {
        answer(ApiErrorId::Unauthorized, "You need to be logged in to access this ressource", 401)
    }

    /// Template for forbidden responses.
    pub fn forbidden() -> (r: ApiErrorResponse)
        ensures
            answer_view(r) == forbidden_answer(),
    {
        answer(ApiErrorId::Forbidden, "You are not allowed to access this ressource.", 403)
    }

    /// Template for not found responses.
    pub fn not_found() -> (r: ApiErrorResponse)
        ensures
            answer_view(r) == not_found_answer(),
    {
        answer(ApiErrorId::NotFound, "Not found.", 404)
    }

    /// Template for expired tokens, which tells the frontend to refresh.
    pub fn token_expired() -> (r: ApiErrorResponse)
        ensures
            answer_view(r) == token_expired_answer(),
    {
        answer(
            ApiErrorId::TokenExpired,
            "Your authentication token has expired. Please log back in.",
            401,
        )
    }

    /// What a token failure is answered.
    pub fn from_jwt(kind: JwtErrorKind) -> (r: ApiErrorResponse)
        ensures
            answer_view(r) == jwt_answer(kind),
    {
        match kind {
            JwtErrorKind::InvalidToken | JwtErrorKind::InvalidSubject
            | JwtErrorKind::InvalidIssuer | JwtErrorKind::InvalidSignature => Self::forbidden(),
            JwtErrorKind::ExpiredSignature => Self::token_expired(),
            JwtErrorKind::Other => Self::unexpected(),
        }
    }

    /// What an authenticator failure is answered.
    pub fn from_authenticator(e: AuthenticatorError) -> (r: ApiErrorResponse)
        ensures
            answer_view(r) == authenticator_answer(e),
    {
        match e {
            AuthenticatorError::InvalidSignature | AuthenticatorError::AuthenticationFailure => {
                Self::forbidden()
            },
            AuthenticatorError::JwtError(JwtErrorKind::ExpiredSignature) => Self::token_expired(),
            _ => Self::unexpected(),
        }
    }

    /// What a failed extraction is answered.
    pub fn from_extractor(e: &ExtractorError) -> (r: ApiErrorResponse)
        ensures
            answer_view(r) == extractor_answer(*e),
    {
        match e {
            ExtractorError::InvalidJwt | ExtractorError::NotLoggedIn => Self::unauthorized(),
            ExtractorError::Unexpected(_) => Self::unexpected(),
            ExtractorError::InvalidHeaderCharacters(_) => answer(
                ApiErrorId::HeaderInvalidAsciiCharacters,
                "Your authentication token has expired. Please log back in.",
                400,
            ),
        }
    }

    /// What a domain error is answered.
    pub fn from_core(e: &CoreError) -> (r: ApiErrorResponse)
        ensures
            answer_view(r) == core_answer(*e),
    {
        match e {
            CoreError::NotFound(_) => Self::not_found(),
            _ => Self::unexpected(),
        }
    }

    /// What a failed request is answered.
    pub fn from_api_error(e: &ApiError) -> (r: ApiErrorResponse)
        ensures
            answer_view(r) == api_answer(*e),
    {
        match e {
            ApiError::Unauthorized => Self::unauthorized(),
            ApiError::NotFound(_) => Self::not_found(),
            ApiError::IoError => Self::unexpected(),
            ApiError::CoreError(c) => Self::from_core(c),
            ApiError::ExtractorError(x) => Self::from_extractor(x),
            ApiError::AuthenticatorError(a) => Self::from_authenticator(*a),
            ApiError::StorageError => Self::unexpected(),
            ApiError::TooManyRequests(_) => answer(
                ApiErrorId::TooManyRequests,
                "Too many requests.",
                429,
            ),
            ApiError::Unexpected => Self::unexpected(),
        }
    }
}

/// Whether a validation failure keeps the status its own mapping gives it,
/// instead of being reduced to "invalid credential": a genuine server-side
/// fault (the provider is unreachable, or its signing keys were never
/// fetched) must stay a 500, and an expired token has its own 401 that tells
/// the frontend to refresh silently rather than log the user out.
pub open spec fn keeps_own(e: AuthenticatorError) -> bool {
    match e {
        AuthenticatorError::NoJwk | AuthenticatorError::RequestError => true,
        AuthenticatorError::JwtError(kind) => kind == JwtErrorKind::ExpiredSignature,
        _ => false,
    }
}

/// Whether a validation failure keeps the status its own mapping gives it.
pub fn keeps_own_status(e: AuthenticatorError) -> (r: bool)
    ensures
        r == keeps_own(e),
{
    match e {
        AuthenticatorError::NoJwk | AuthenticatorError::RequestError => true,
        AuthenticatorError::JwtError(kind) => match kind {
            JwtErrorKind::ExpiredSignature => true,
            _ => false,
        },
        _ => false,
    }
}

/// Maps a failure to validate a caller-supplied token onto an API error.
///
/// Everything the authenticator rejects here describes a credential the caller
/// sent, so it answers 401 and lets the caller re-authenticate; only the cases
/// of [`keeps_own_status`] keep their own answer.
pub fn credential_error(e: AuthenticatorError) -> (r: ApiError)
    ensures
        keeps_own(e) ==> r == ApiError::AuthenticatorError(e),
        !keeps_own(e) ==> r matches ApiError::ExtractorError(ExtractorError::InvalidJwt),
        api_answer(r) == credential_answer(e),
{
    if keeps_own_status(e) {
        ApiError::AuthenticatorError(e)
    } else {
        ApiError::ExtractorError(ExtractorError::InvalidJwt)
    }
}

/// A refused caller cannot tell a missing resource from one it may not see:
/// every `NotFound` of the domain, whatever it names, is answered the same
/// 404 with the same message.
pub proof fn law_not_found_answers_leak_nothing(a: String, b: String)
    ensures
        api_answer(ApiError::CoreError(CoreError::NotFound(a))) == api_answer(
            ApiError::CoreError(CoreError::NotFound(b)),
        ),
        api_answer(ApiError::CoreError(CoreError::NotFound(a))).2 == 404,
{
}

/// What a rejected token is answered.
pub open spec fn credential_answer(e: AuthenticatorError) -> (ApiErrorId, Seq<char>, u16) {
    if keeps_own(e) {
        api_answer(ApiError::AuthenticatorError(e))
    } else {
        extractor_answer(ExtractorError::InvalidJwt)
    }
}

/// A token the caller sent and the authenticator rejected is answered 401,
/// an expired one with its own identifier, unless the server could not check
/// it at all, which stays a 500.
pub proof fn law_rejected_credentials_answer_unauthorized(e: AuthenticatorError)
    ensures
        credential_answer(e).2 == (if e is NoJwk || e is RequestError {
            500u16
        } else {
            401u16
        }),
        e == AuthenticatorError::JwtError(JwtErrorKind::ExpiredSignature) ==> credential_answer(e)
            == token_expired_answer(),
{
}

} // verus!
