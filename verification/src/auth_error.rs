//! The failures that the login, refresh and session-check flows end in.

use vstd::prelude::*;
use crate::token_service::TokenError;

verus! {

/// How a flow failed. Credential and token failures are the caller's;
/// `SigningError`, `LedgerUnavailable` and `ResolverUnavailable` are the
/// service's own.
#[derive(Debug, Clone, Copy, PartialEq, Eq, Structural)]
pub enum AuthError {
    /// A refresh was asked for with an empty token.
    EmptyRefreshToken,
    /// A session check came without a bearer token.
    MissingToken,
    /// The login is unknown or the secret is wrong.
    InvalidCredential,
    /// The refresh token did not verify.
    InvalidRefreshToken,
    /// The access token's signature does not match.
    InvalidSignature,
    /// The access token's last second has passed.
    Expired,
    /// The access token cannot be read.
    Malformed,
    /// The refresh token was used before and the ledger still says so.
    RefreshAlreadyUsed,
    /// The principal of a refresh token is no longer there.
    PrincipalGone,
    /// The principal of an access token is not there.
    PrincipalNotFound,
    /// A token could not be minted.
    SigningError,
    /// The ledger did not answer.
    LedgerUnavailable,
    /// The identity backend did not answer.
    ResolverUnavailable,
}

/// How the failure of an access token's verification is reported.
pub open spec fn access_failure(e: TokenError) -> AuthError {
    match e {
        TokenError::Expired => AuthError::Expired,
        TokenError::InvalidSignature => AuthError::InvalidSignature,
        TokenError::Malformed => AuthError::Malformed,
        TokenError::SigningError => AuthError::Malformed,
    }
}

/// Reports the failure of an access token's verification.
pub fn access_failure_of(e: TokenError) -> (a: AuthError)
    ensures
        a == access_failure(e),
{
    match e {
        TokenError::Expired => AuthError::Expired,
        TokenError::InvalidSignature => AuthError::InvalidSignature,
        TokenError::Malformed => AuthError::Malformed,
        TokenError::SigningError => AuthError::Malformed,
    }
}

/// Whether a failure is the service's own rather than the caller's.
pub open spec fn is_operational(e: AuthError) -> bool {
    e == AuthError::SigningError || e == AuthError::LedgerUnavailable || e
        == AuthError::ResolverUnavailable
}

/// The HTTP status that a failure is answered with.
pub open spec fn status_of(e: AuthError) -> u16 {
    match e {
        AuthError::EmptyRefreshToken => 400,
        AuthError::InvalidCredential => 400,
        AuthError::MissingToken => 401,
        AuthError::InvalidSignature => 401,
        AuthError::Expired => 401,
        AuthError::Malformed => 401,
        AuthError::InvalidRefreshToken => 403,
        AuthError::RefreshAlreadyUsed => 403,
        AuthError::PrincipalGone => 409,
        AuthError::PrincipalNotFound => 409,
        AuthError::SigningError => 502,
        AuthError::LedgerUnavailable => 500,
        AuthError::ResolverUnavailable => 500,
    }
}

impl AuthError {
    /// The HTTP status that the failure is answered with: a 4xx status for
    /// the caller's failures, a 5xx status for the service's own.
    pub fn http_status(&self) -> (code: u16)
        ensures
            code == status_of(*self),
            is_operational(*self) <==> 500 <= code < 600,
            !is_operational(*self) <==> 400 <= code < 500,
    {
        match self {
            AuthError::EmptyRefreshToken | AuthError::InvalidCredential => 400,
            AuthError::MissingToken
            | AuthError::InvalidSignature
            | AuthError::Expired
            | AuthError::Malformed => 401,
            AuthError::InvalidRefreshToken | AuthError::RefreshAlreadyUsed => 403,
            AuthError::PrincipalGone | AuthError::PrincipalNotFound => 409,
            AuthError::SigningError => 502,
            AuthError::LedgerUnavailable | AuthError::ResolverUnavailable => 500,
        }
    }

    /// The message that the failure is answered with. It tells an unknown
    /// login from a wrong secret no more than the failure itself does.
    pub fn message(&self) -> (text: &'static str)
        ensures
            text@ == message_of(*self),
    {
        match self {
            AuthError::EmptyRefreshToken => "Refresh token is required",
            AuthError::MissingToken => "No token found",
            AuthError::InvalidCredential => "Invalid email or password",
            AuthError::InvalidRefreshToken => "Invalid refresh token",
            AuthError::InvalidSignature => "Invalid Token",
            AuthError::Expired => "Invalid Token",
            AuthError::Malformed => "Invalid Token",
            AuthError::RefreshAlreadyUsed => "The refresh token has already been used",
            AuthError::PrincipalGone => "the user belonging to this token no longer exists",
            AuthError::PrincipalNotFound => "the user belonging to this token no longer exists",
            AuthError::SigningError => "Could not issue a token",
            AuthError::LedgerUnavailable => "Could not reach the token ledger",
            AuthError::ResolverUnavailable => "Could not reach the identity backend",
        }
    }
}

/// The message that a failure is answered with.
pub open spec fn message_of(e: AuthError) -> Seq<char> {
    match e {
        AuthError::EmptyRefreshToken => "Refresh token is required"@,
        AuthError::MissingToken => "No token found"@,
        AuthError::InvalidCredential => "Invalid email or password"@,
        AuthError::InvalidRefreshToken => "Invalid refresh token"@,
        AuthError::InvalidSignature => "Invalid Token"@,
        AuthError::Expired => "Invalid Token"@,
        AuthError::Malformed => "Invalid Token"@,
        AuthError::RefreshAlreadyUsed => "The refresh token has already been used"@,
        AuthError::PrincipalGone => "the user belonging to this token no longer exists"@,
        AuthError::PrincipalNotFound => "the user belonging to this token no longer exists"@,
        AuthError::SigningError => "Could not issue a token"@,
        AuthError::LedgerUnavailable => "Could not reach the token ledger"@,
        AuthError::ResolverUnavailable => "Could not reach the identity backend"@,
    }
}

} // verus!
