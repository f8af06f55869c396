use jsonwebtoken::DecodingKey;
use vstd::prelude::*;

use crate::models::error::ErrorCode;
use crate::server::response::{error_spec, ApiError, ErrorBodyView};
use crate::text::{contains_text, has_prefix, has_substring, occurs_at, starts_with_text};

verus! {

/// Why a JSON web token was refused.
#[derive(Debug, Clone, Copy, PartialEq, Eq, Structural)]
pub enum AuthError {
    InvalidFormat,
    Expired,
    InvalidSignature,
}

/// The message of an authentication error.
pub open spec fn auth_error_message(e: AuthError) -> Seq<char> {
    match e {
        AuthError::InvalidFormat => "Invalid JWT format"@,
        AuthError::Expired => "JWT token expired"@,
        AuthError::InvalidSignature => "Invalid JWT signature"@,
    }
}

impl AuthError {
    /// The message of the error.
    pub fn to_string(&self) -> (r: String)
        ensures
            r@ == auth_error_message(*self),
    {
        match self {
            AuthError::InvalidFormat => String::from_str("Invalid JWT format"),
            AuthError::Expired => String::from_str("JWT token expired"),
            AuthError::InvalidSignature => String::from_str("Invalid JWT signature"),
        }
    }
}

/// The kind of failure the token decoder reports, as far as it matters here.
#[derive(Debug, Clone, Copy, PartialEq, Eq, Structural)]
pub enum TokenFailure {
    /// The token has expired.
    ExpiredSignature,
    /// The signature does not match.
    InvalidSignature,
    /// Any other failure.
    Other,
}

/// The authentication error a decoding failure is reported as.
pub fn auth_error_of(failure: TokenFailure) -> (r: AuthError)
    ensures
        r == match failure {
            TokenFailure::ExpiredSignature => AuthError::Expired,
            TokenFailure::InvalidSignature => AuthError::InvalidSignature,
            TokenFailure::Other => AuthError::InvalidFormat,
        },
{
    match failure {
        TokenFailure::ExpiredSignature => AuthError::Expired,
        TokenFailure::InvalidSignature => AuthError::InvalidSignature,
        TokenFailure::Other => AuthError::InvalidFormat,
    }
}

/// The `Authorization` header of a request, as far as the check reads it.
pub enum AuthHeader {
    /// There is none.
    Missing,
    /// It is not visible ASCII text.
    Unreadable,
    /// Its text.
    Text(String),
}

/// What to do with a request.
pub enum AuthDecision {
    /// Pass it on without a check.
    Forward,
    /// Answer it with the error.
    Reject(ApiError),
    /// Pass it on if the token validates.
    Validate(String),
}

/// Only paths holding `/v1/` are protected.
pub open spec fn protected_path(path: Seq<char>) -> bool {
    has_substring(path, "/v1/"@)
}

/// The unauthorized error with the message.
pub open spec fn unauthorized_spec(message: Seq<char>) -> ErrorBodyView {
    error_spec(ErrorCode::InvalidSignature, message, None)
}

/// Decides on a request by its path and `Authorization` header: unprotected
/// paths pass; otherwise the header must be there, be text and use the Bearer
/// scheme, and the token after `Bearer ` is to be validated.
pub fn authorize(path: &str, header: AuthHeader) -> (r: AuthDecision)
    ensures
        !protected_path(path@) ==> r is Forward,
        protected_path(path@) ==> match header {
            AuthHeader::Missing => r matches AuthDecision::Reject(e) && e@ == unauthorized_spec(
                "Missing authorization header"@,
            ),
            AuthHeader::Unreadable => r matches AuthDecision::Reject(e) && e@ == unauthorized_spec(
                "Invalid authorization header"@,
            ),
            AuthHeader::Text(t) => if has_prefix(t@, "Bearer "@) {
                r matches AuthDecision::Validate(token) && token@ == t@.subrange(7, t@.len() as int)
            } else {
                r matches AuthDecision::Reject(e) && e@ == unauthorized_spec("Authorization must use Bearer scheme"@)
            },
        },
{
    if !contains_text(path, "/v1/") {
        return AuthDecision::Forward;
    }
    match header {
        AuthHeader::Missing => AuthDecision::Reject(ApiError::unauthorized("Missing authorization header")),
        AuthHeader::Unreadable => AuthDecision::Reject(ApiError::unauthorized("Invalid authorization header")),
        AuthHeader::Text(t) => {
            if !starts_with_text(t.as_str(), "Bearer ") {
                AuthDecision::Reject(ApiError::unauthorized("Authorization must use Bearer scheme"))
            } else {
                proof {
                    reveal_strlit("Bearer ");
                }
                let n = t.as_str().unicode_len();
                AuthDecision::Validate(String::from_str(t.as_str().substring_char(7, n)))
            }
        },
    }
}

/// The answer once the token was checked: pass the request on, or answer it as
/// unauthorized with the message of the error.
pub fn token_decision(result: Result<(), AuthError>) -> (r: AuthDecision)
    ensures
        match result {
            Ok(()) => r is Forward,
            Err(e) => r matches AuthDecision::Reject(x) && x@ == unauthorized_spec(auth_error_message(e)),
        },
{
    match result {
        Ok(()) => AuthDecision::Forward,
        Err(e) => AuthDecision::Reject(ApiError::unauthorized(e.to_string())),
    }
}


/// A key for checking JWT signatures, as the `jsonwebtoken` crate holds it.
#[verifier::external_type_specification]
#[verifier::external_body]
pub struct ExDecodingKey(DecodingKey);

/// Whether `jsonwebtoken` reads the bytes as an RSA public key in PEM format: a
/// function of the bytes alone.
pub uninterp spec fn rsa_pem_accepted(pem: Seq<u8>) -> bool;

/// The RSA public key in the PEM bytes, where they hold one.
///
/// Trusted: calls `jsonwebtoken::DecodingKey::from_rsa_pem`; the contract says
/// that a key comes back exactly where the bytes are accepted, named
/// `rsa_pem_accepted`, and nothing of the key itself.
#[verifier::external_body]
pub(crate) fn decoding_key_from_rsa_pem(pem: &[u8]) -> (r: Option<DecodingKey>)
    ensures
        r is Some <==> rsa_pem_accepted(pem@),
{
    DecodingKey::from_rsa_pem(pem).ok()
}

/// Bearer authentication with JSON web tokens signed by an RSA key.
pub struct BearerAuth {
    /// The key the signatures are checked with.
    pub decoding_key: DecodingKey,
}

impl BearerAuth {
    /// The authentication for an RSA public key in PEM format; `InvalidFormat`
    /// where the bytes hold no such key.
    pub fn from_rsa_pem(pem: &[u8]) -> (r: Result<BearerAuth, AuthError>)
        ensures
            r is Ok <==> rsa_pem_accepted(pem@),
            r matches Err(e) ==> e == AuthError::InvalidFormat,
    {
        match decoding_key_from_rsa_pem(pem) {
            Some(decoding_key) => Ok(BearerAuth { decoding_key }),
            None => Err(AuthError::InvalidFormat),
        }
    }
}

/// A path is protected exactly when the text `/v1/` occurs in it: a request
/// on any other path is passed on with no look at its `Authorization` header
/// (see [`authorize`]).
pub proof fn lemma_protected_paths(path: Seq<char>)
    ensures
        protected_path(path) <==> exists|i: int|
            0 <= i && i + 4 <= path.len() && #[trigger] path[i] == '/' && path[i + 1] == 'v' && path[i + 2] == '1'
                && path[i + 3] == '/',
{
    reveal_strlit("/v1/");
    if protected_path(path) {
        let i = choose|i: int| #[trigger] occurs_at(path, "/v1/"@, i);
        assert(path.subrange(i, i + 4)[0] == path[i]);
        assert(path.subrange(i, i + 4)[1] == path[i + 1]);
        assert(path.subrange(i, i + 4)[2] == path[i + 2]);
        assert(path.subrange(i, i + 4)[3] == path[i + 3]);
    }
    if exists|i: int|
        0 <= i && i + 4 <= path.len() && #[trigger] path[i] == '/' && path[i + 1] == 'v' && path[i + 2] == '1'
            && path[i + 3] == '/' {
        let i = choose|i: int|
            0 <= i && i + 4 <= path.len() && #[trigger] path[i] == '/' && path[i + 1] == 'v' && path[i + 2] == '1'
                && path[i + 3] == '/';
        assert(path.subrange(i, i + 4) =~= "/v1/"@);
        assert(occurs_at(path, "/v1/"@, i));
    }
}

} // verus!
