//! Minting and verifying signed tokens.
//!
//! A token is a signed payload of four claims. Signing and signature checks
//! are done by `jsonwebtoken` with RS256; which claims go in, when the sum of
//! issue time and lifetime is representable, which identifier shapes are
//! accepted and when a token counts as expired is decided here.

use vstd::prelude::*;
use vstd::string::*;
use crate::decimal::{decimal_text, parse_decimal, text_to_u64, u64_to_text};
use crate::token_model::{
    check_token_uuid, is_token_uuid, text_view, ClaimsView, DetailsView, TokenClaims, TokenDetails,
};

verus! {

/// Why a token could not be minted or was not accepted.
#[derive(Debug, Clone, Copy, PartialEq, Eq, Structural)]
pub enum TokenError {
    /// The claims could not be built or the key did not sign them.
    SigningError,
    /// The signature does not match, or the verifying key is unusable.
    InvalidSignature,
    /// The signature is good and the token's last second has passed.
    Expired,
    /// The token or its claims cannot be read.
    Malformed,
}

/// The classes of failure that decoding a signed token can end in.
#[derive(Debug, Clone, Copy, PartialEq, Eq, Structural)]
pub enum DecodeFailure {
    InvalidToken,
    InvalidSignature,
    InvalidKey,
    InvalidAlgorithm,
    Base64,
    Json,
    Utf8,
    Crypto,
    Other,
}

/// The four claims as they are found in a payload: each may be absent or of
/// another type than expected.
#[derive(Debug)]
pub struct RawClaims {
    pub sub: Option<String>,
    pub token_uuid: Option<String>,
    pub exp: Option<i64>,
    pub iat: Option<i64>,
}

/// The mathematical value of [`RawClaims`].
pub struct RawClaimsView {
    pub sub: Option<Seq<char>>,
    pub token_uuid: Option<Seq<char>>,
    pub exp: Option<i64>,
    pub iat: Option<i64>,
}

impl View for RawClaims {
    type V = RawClaimsView;

    open spec fn view(&self) -> RawClaimsView {
        RawClaimsView {
            sub: text_view(self.sub),
            token_uuid: text_view(self.token_uuid),
            exp: self.exp,
            iat: self.iat,
        }
    }
}

#[verifier::external_type_specification]
#[verifier::external_body]
pub struct ExJwtError(jsonwebtoken::errors::Error);

/// The token that RS256 signing of the four claims with a PEM private key
/// yields, or `None` where the key is unusable or signing fails.
pub uninterp spec fn rs256_signed(
    sub: Seq<char>,
    token_uuid: Seq<char>,
    exp: i64,
    iat: i64,
    private_key: Seq<char>,
) -> Option<Seq<char>>;

/// What decoding a token against a PEM public key yields when only the
/// signature and the payload's syntax are checked: the claims found, or the
/// class of the failure.
pub uninterp spec fn rs256_decoded(token: Seq<char>, public_key: Seq<char>) -> Result<
    RawClaimsView,
    DecodeFailure,
>;

/// The class of a decoding error.
pub uninterp spec fn error_class(e: jsonwebtoken::errors::Error) -> DecodeFailure;

/// `jsonwebtoken::encode` with an RS256 header, on a JSON object of the four
/// claims and the key that `EncodingKey::from_rsa_pem` reads. The serialised
/// object and the PKCS#1 v1.5 signature depend on the claims and the key
/// alone, so the result is named by [`rs256_signed`].
#[verifier::external_body]
fn sign_rs256(claims: &TokenClaims, private_key: &str) -> (r: Option<String>)
    ensures
        text_view(r) == rs256_signed(
            claims@.sub,
            claims@.token_uuid,
            claims.exp,
            claims.iat,
            private_key@,
        ),
{
    let mut payload = serde_json::Map::new();
    payload.insert(String::from("sub"), serde_json::Value::from(claims.sub.as_str()));
    payload.insert(String::from("token_uuid"), serde_json::Value::from(claims.token_uuid.as_str()));
    payload.insert(String::from("exp"), serde_json::Value::from(claims.exp));
    payload.insert(String::from("iat"), serde_json::Value::from(claims.iat));
    let key = jsonwebtoken::EncodingKey::from_rsa_pem(private_key.as_bytes()).ok()?;
    let header = jsonwebtoken::Header::new(jsonwebtoken::Algorithm::RS256);
    jsonwebtoken::encode(&header, &payload, &key).ok()
}

/// `jsonwebtoken::decode` for RS256 with the key that
/// `DecodingKey::from_rsa_pem` reads, with the checks of expiry, audience and
/// required claims switched off, so that no clock is read and the result
/// depends on the token and the key alone: it is named by [`rs256_decoded`].
/// A claim that is absent or not of the expected JSON type comes back `None`.
#[verifier::external_body]
fn decode_rs256(token: &str, public_key: &str) -> (r: Result<
    RawClaims,
    jsonwebtoken::errors::Error,
>)
    ensures
        (match r {
            Ok(c) => rs256_decoded(token@, public_key@) == Ok::<RawClaimsView, DecodeFailure>(c@),
            Err(e) => rs256_decoded(token@, public_key@) == Err::<RawClaimsView, DecodeFailure>(
                error_class(e),
            ),
        }),
{
    let key = jsonwebtoken::DecodingKey::from_rsa_pem(public_key.as_bytes())?;
    let mut rules = jsonwebtoken::Validation::new(jsonwebtoken::Algorithm::RS256);
    rules.validate_exp = false;
    rules.validate_aud = false;
    rules.required_spec_claims.clear();
    let data = jsonwebtoken::decode::<serde_json::Value>(token, &key, &rules)?;
    Ok(RawClaims {
        sub: data.claims["sub"].as_str().map(String::from),
        token_uuid: data.claims["token_uuid"].as_str().map(String::from),
        exp: data.claims["exp"].as_i64(),
        iat: data.claims["iat"].as_i64(),
    })
}

/// `jsonwebtoken::errors::Error::kind`. The three kinds that a key can be
/// turned down with count as one; the kinds of signing and of the claim
/// checks that decoding here leaves off are gathered under `Other`.
#[verifier::external_body]
fn failure_class(e: &jsonwebtoken::errors::Error) -> (k: DecodeFailure)
    ensures
        k == error_class(*e),
{
    match e.kind() {
        jsonwebtoken::errors::ErrorKind::InvalidToken => DecodeFailure::InvalidToken,
        jsonwebtoken::errors::ErrorKind::InvalidSignature => DecodeFailure::InvalidSignature,
        jsonwebtoken::errors::ErrorKind::InvalidEcdsaKey => DecodeFailure::InvalidKey,
        jsonwebtoken::errors::ErrorKind::InvalidRsaKey(_) => DecodeFailure::InvalidKey,
        jsonwebtoken::errors::ErrorKind::InvalidKeyFormat => DecodeFailure::InvalidKey,
        jsonwebtoken::errors::ErrorKind::InvalidAlgorithm => DecodeFailure::InvalidAlgorithm,
        jsonwebtoken::errors::ErrorKind::Base64(_) => DecodeFailure::Base64,
        jsonwebtoken::errors::ErrorKind::Json(_) => DecodeFailure::Json,
        jsonwebtoken::errors::ErrorKind::Utf8(_) => DecodeFailure::Utf8,
        jsonwebtoken::errors::ErrorKind::Crypto(_) => DecodeFailure::Crypto,
        _ => DecodeFailure::Other,
    }
}

/// `chrono::Utc::now().timestamp()`: the current second since the Unix
/// epoch. Nothing is claimed of the value. `chrono` gives up where the
/// system clock stands before the epoch.
#[verifier::external_body]
pub(crate) fn unix_now() -> i64 {
    chrono::Utc::now().timestamp()
}

/// `uuid::Uuid::new_v4()` in its default text form, which is hyphenated and
/// lower-case. Which identifier comes back is left open.
#[verifier::external_body]
pub(crate) fn new_token_uuid() -> (id: String)
    ensures
        is_token_uuid(id@),
{
    uuid::Uuid::new_v4().to_string()
}

/// How a decoding failure is reported: an unreadable token as `Malformed`,
/// everything that stops the signature from being confirmed as
/// `InvalidSignature`.
pub open spec fn failure_error(f: DecodeFailure) -> TokenError {
    match f {
        DecodeFailure::InvalidToken => TokenError::Malformed,
        DecodeFailure::Base64 => TokenError::Malformed,
        DecodeFailure::Json => TokenError::Malformed,
        DecodeFailure::Utf8 => TokenError::Malformed,
        DecodeFailure::Other => TokenError::Malformed,
        DecodeFailure::InvalidSignature => TokenError::InvalidSignature,
        DecodeFailure::InvalidKey => TokenError::InvalidSignature,
        DecodeFailure::InvalidAlgorithm => TokenError::InvalidSignature,
        DecodeFailure::Crypto => TokenError::InvalidSignature,
    }
}

/// Whether the four claims are all there and readable: a decimal subject and
/// an identifier of the expected shape.
pub open spec fn claims_readable(raw: RawClaimsView) -> bool {
    &&& raw.sub is Some
    &&& raw.token_uuid is Some
    &&& raw.exp is Some
    &&& raw.iat is Some
    &&& parse_decimal(raw.sub->0) is Some
    &&& is_token_uuid(raw.token_uuid->0)
}

/// What verifying yields from what decoding found, at a given second.
/// A token is expired from the second `exp` on.
pub open spec fn verify_outcome(decoded: Result<RawClaimsView, DecodeFailure>, now: i64) -> Result<
    DetailsView,
    TokenError,
> {
    match decoded {
        Err(f) => Err(failure_error(f)),
        Ok(raw) => if !claims_readable(raw) {
            Err(TokenError::Malformed)
        } else if raw.exp->0 <= now {
            Err(TokenError::Expired)
        } else {
            Ok(
                DetailsView {
                    token: None,
                    token_uuid: raw.token_uuid->0,
                    user_id: parse_decimal(raw.sub->0)->0,
                    expires_in: raw.exp,
                },
            )
        },
    }
}

/// The view of a result that holds token details.
pub open spec fn details_result_view(r: Result<TokenDetails, TokenError>) -> Result<
    DetailsView,
    TokenError,
> {
    match r {
        Ok(d) => Ok(d@),
        Err(e) => Err(e),
    }
}

/// The view of a decoding result.
pub open spec fn decoded_view(r: Result<RawClaims, DecodeFailure>) -> Result<
    RawClaimsView,
    DecodeFailure,
> {
    match r {
        Ok(c) => Ok(c@),
        Err(f) => Err(f),
    }
}

/// Reports a decoding failure as a token error.
pub fn token_error_of(f: DecodeFailure) -> (e: TokenError)
    ensures
        e == failure_error(f),
{
    match f {
        DecodeFailure::InvalidToken
        | DecodeFailure::Base64
        | DecodeFailure::Json
        | DecodeFailure::Utf8
        | DecodeFailure::Other => TokenError::Malformed,
        DecodeFailure::InvalidSignature
        | DecodeFailure::InvalidKey
        | DecodeFailure::InvalidAlgorithm
        | DecodeFailure::Crypto => TokenError::InvalidSignature,
    }
}

/// Judges what decoding found: rejects unreadable claims, then expired
/// tokens, and otherwise gives the token's details.
pub fn judge_decoded(decoded: Result<RawClaims, DecodeFailure>, now: i64) -> (r: Result<
    TokenDetails,
    TokenError,
>)
    ensures
        details_result_view(r) == verify_outcome(decoded_view(decoded), now),
{
    let raw = match decoded {
        Err(f) => {
            return Err(token_error_of(f));
        },
        Ok(raw) => raw,
    };
    let RawClaims { sub, token_uuid, exp, iat } = raw;
    match (sub, token_uuid, exp, iat) {
        (Some(sub), Some(token_uuid), Some(exp), Some(_)) => {
            let user_id = match text_to_u64(sub.as_str()) {
                Some(v) => v,
                None => {
                    return Err(TokenError::Malformed);
                },
            };
            if !check_token_uuid(token_uuid.as_str()) {
                return Err(TokenError::Malformed);
            }
            if exp <= now {
                return Err(TokenError::Expired);
            }
            Ok(TokenDetails { token: None, token_uuid, user_id, expires_in: Some(exp) })
        },
        _ => Err(TokenError::Malformed),
    }
}

/// Verifies a token against a PEM public key at a given second.
pub fn verify_jwt_token_at(public_key: &str, token: &str, now: i64) -> (r: Result<
    TokenDetails,
    TokenError,
>)
    ensures
        details_result_view(r) == verify_outcome(rs256_decoded(token@, public_key@), now),
{
    let decoded = match decode_rs256(token, public_key) {
        Ok(raw) => Ok(raw),
        Err(e) => Err(failure_class(&e)),
    };
    judge_decoded(decoded, now)
}

/// Verifies a token against a PEM public key at the current second, whatever
/// that second is.
pub fn verify_jwt_token(public_key: String, token: &str) -> (r: Result<TokenDetails, TokenError>)
    ensures
        exists|now: i64|
            details_result_view(r) == #[trigger] verify_outcome(
                rs256_decoded(token@, public_key@),
                now,
            ),
{
    let now = unix_now();
    verify_jwt_token_at(public_key.as_str(), token, now)
}

/// Whether a lifetime added to an issue time is a representable second.
pub open spec fn expiry_representable(now: i64, ttl: i64) -> bool {
    i64::MIN <= now + ttl <= i64::MAX
}

/// The claims of a token minted for a principal at second `now` with a
/// lifetime of `ttl` seconds.
pub open spec fn minted_claims(user_id: u64, ttl: i64, now: i64, token_uuid: Seq<char>) -> ClaimsView {
    ClaimsView {
        sub: decimal_text(user_id as nat),
        token_uuid,
        exp: (now + ttl) as i64,
        iat: now,
    }
}

/// The signed text of the token that minting yields, if it yields one.
pub open spec fn minted_token(
    user_id: u64,
    ttl: i64,
    private_key: Seq<char>,
    now: i64,
    token_uuid: Seq<char>,
) -> Option<Seq<char>> {
    if !is_token_uuid(token_uuid) || !expiry_representable(now, ttl) {
        None
    } else {
        let c = minted_claims(user_id, ttl, now, token_uuid);
        rs256_signed(c.sub, c.token_uuid, c.exp, c.iat, private_key)
    }
}

/// What minting yields: a signing error where the identifier is misshapen,
/// the expiry is not representable or the key does not sign; otherwise the
/// details of the new token, with its signed text.
pub open spec fn issue_outcome(
    user_id: u64,
    ttl: i64,
    private_key: Seq<char>,
    now: i64,
    token_uuid: Seq<char>,
) -> Result<DetailsView, TokenError> {
    match minted_token(user_id, ttl, private_key, now, token_uuid) {
        None => Err(TokenError::SigningError),
        Some(t) => Ok(
            DetailsView {
                token: Some(t),
                token_uuid,
                user_id,
                expires_in: Some((now + ttl) as i64),
            },
        ),
    }
}

/// Mints a token for a principal at a given second under a given identifier.
pub fn generate_jwt_token_at(
    user_id: u64,
    ttl: i64,
    private_key: &str,
    now: i64,
    token_uuid: String,
) -> (r: Result<TokenDetails, TokenError>)
    ensures
        details_result_view(r) == issue_outcome(user_id, ttl, private_key@, now, token_uuid@),
{
    if !check_token_uuid(token_uuid.as_str()) {
        return Err(TokenError::SigningError);
    }
    let exp = match now.checked_add(ttl) {
        Some(exp) => exp,
        None => {
            return Err(TokenError::SigningError);
        },
    };
    let claims = TokenClaims { sub: u64_to_text(user_id), token_uuid, exp, iat: now };
    match sign_rs256(&claims, private_key) {
        None => Err(TokenError::SigningError),
        Some(token) => Ok(
            TokenDetails {
                token: Some(token),
                token_uuid: claims.token_uuid,
                user_id,
                expires_in: Some(exp),
            },
        ),
    }
}

/// Mints a token for a principal at the current second under a fresh
/// identifier, whatever second and identifier those are.
pub fn generate_jwt_token(user_id: u64, ttl: i64, private_key: String) -> (r: Result<
    TokenDetails,
    TokenError,
>)
    ensures
        exists|now: i64, id: Seq<char>|
            is_token_uuid(id) && details_result_view(r) == #[trigger] issue_outcome(
                user_id,
                ttl,
                private_key@,
                now,
                id,
            ),
{
    let now = unix_now();
    let id = new_token_uuid();
    let ghost id_view = id@;
    let r = generate_jwt_token_at(user_id, ttl, private_key.as_str(), now, id);
    assert(details_result_view(r) == issue_outcome(user_id, ttl, private_key@, now, id_view));
    r
}

} // verus!
