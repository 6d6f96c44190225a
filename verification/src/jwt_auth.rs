//! Admission of a request by the bearer token in its `Authorization` header.

use vstd::prelude::*;
use vstd::string::*;
use crate::auth_error::{access_failure, access_failure_of, AuthError};
use crate::token_service::{rs256_decoded, verify_jwt_token_at, verify_outcome};

verus! {

/// The principal that a request was admitted for.
#[derive(Debug, Clone, Copy, PartialEq, Eq, Structural)]
pub struct JwtMiddleware {
    pub user_id: u64,
}

/// The seven characters that a bearer header begins with: the scheme word
/// and one space.
pub open spec fn bearer_prefix() -> Seq<char> {
    seq!['B', 'e', 'a', 'r', 'e', 'r', ' ']
}

/// The token in an `Authorization` header: what follows the bearer prefix.
/// A header that does not begin with the prefix holds no token.
pub open spec fn bearer_token(header: Seq<char>) -> Option<Seq<char>> {
    if header.len() >= 7 && header.take(7) == bearer_prefix() {
        Some(header.skip(7))
    } else {
        None
    }
}

/// Takes the token out of an `Authorization` header.
pub fn bearer_token_of(header: &str) -> (token: Option<&str>)
    ensures
        (match token {
            Some(t) => bearer_token(header@) == Some(t@),
            None => bearer_token(header@) is None,
        }),
{
    let n: usize = header.unicode_len();
    if n < 7 {
        return None;
    }
    let begins = header.get_char(0) == 'B' && header.get_char(1) == 'e' && header.get_char(2)
        == 'a' && header.get_char(3) == 'r' && header.get_char(4) == 'e' && header.get_char(5)
        == 'r' && header.get_char(6) == ' ';
    if !begins {
        assert(header@.take(7) != bearer_prefix()) by {
            if header@.take(7) == bearer_prefix() {
                assert(forall|i: int| 0 <= i < 7 ==> header@.take(7)[i] == header@[i]);
                assert(header@[0] == bearer_prefix()[0]);
                assert(header@[1] == bearer_prefix()[1]);
                assert(header@[2] == bearer_prefix()[2]);
                assert(header@[3] == bearer_prefix()[3]);
                assert(header@[4] == bearer_prefix()[4]);
                assert(header@[5] == bearer_prefix()[5]);
                assert(header@[6] == bearer_prefix()[6]);
            }
        }
        return None;
    }
    assert(header@.take(7) =~= bearer_prefix());
    let token = header.substring_char(7, n);
    assert(token@ =~= header@.skip(7));
    Some(token)
}

/// The view of an optional header.
pub open spec fn header_view(header: Option<&str>) -> Option<Seq<char>> {
    match header {
        Some(h) => Some(h@),
        None => None,
    }
}

/// Whom a request with this header is admitted for at second `now`, given
/// what decoding its token yields. Only a header under the bearer scheme is
/// looked into; any other counts as unreadable.
pub open spec fn admission(header: Option<Seq<char>>, public_key: Seq<char>, now: i64) -> Result<
    JwtMiddleware,
    AuthError,
> {
    match header {
        None => Err(AuthError::MissingToken),
        Some(h) => match bearer_token(h) {
            None => Err(AuthError::Malformed),
            Some(token) => match verify_outcome(rs256_decoded(token, public_key), now) {
                Err(e) => Err(access_failure(e)),
                Ok(d) => Ok(JwtMiddleware { user_id: d.user_id }),
            },
        },
    }
}

impl JwtMiddleware {
    /// Admits a request by its `Authorization` header, if it has one, against
    /// the access-token public key at second `now`.
    pub fn from_request(header: Option<&str>, public_key: &str, now: i64) -> (r: Result<
        JwtMiddleware,
        AuthError,
    >)
        ensures
            r == admission(header_view(header), public_key@, now),
    {
        let header = match header {
            None => {
                return Err(AuthError::MissingToken);
            },
            Some(h) => h,
        };
        let token = match bearer_token_of(header) {
            None => {
                return Err(AuthError::Malformed);
            },
            Some(token) => token,
        };
        match verify_jwt_token_at(public_key, token, now) {
            Err(e) => Err(access_failure_of(e)),
            Ok(details) => Ok(JwtMiddleware { user_id: details.user_id }),
        }
    }
}

} // verus!
