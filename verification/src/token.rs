//! Access tokens: their claims, how they are issued, and what permissions they carry.

use vstd::prelude::*;
use vstd::string::StringSliceAdditionalSpecFns;

use jsonwebtoken::{DecodingKey, EncodingKey, Header, Validation};
use serde_json::Value;

use crate::error::AppError;
use crate::text::{decimal_text, i64_to_string};

verus! {

#[verifier::external_type_specification]
#[verifier::external_body]
pub struct ExJwtError(jsonwebtoken::errors::Error);

/// How long an access token stays valid, in seconds.
pub const TOKEN_LIFETIME_SECONDS: i64 = 3600;

/// The query string that may carry a token in place of the `Authorization` header.
pub struct AuthQuery {
    pub auth: String,
}

/// Where a request carries its token: a well-formed `Authorization: Bearer` header, a header that
/// is there but malformed, or, without the header, the `auth` query parameter when the query can be
/// read.
pub enum TokenSource {
    Header(String),
    HeaderMalformed,
    Query(Option<String>),
}

/// The token that a request carries: the header's, or the query's when there is no header; a
/// malformed header or an unreadable query leaves the request unauthorized.
pub fn bearer_token(source: TokenSource) -> (r: Result<String, AppError>)
    ensures
        match source {
            TokenSource::Header(t) => r == Ok::<String, AppError>(t),
            TokenSource::Query(Some(t)) => r == Ok::<String, AppError>(t),
            _ => r == Err::<String, AppError>(AppError::UnAuthorized),
        },
{
    match source {
        TokenSource::Header(token) => Ok(token),
        TokenSource::HeaderMalformed => Err(AppError::UnAuthorized),
        TokenSource::Query(Some(token)) => Ok(token),
        TokenSource::Query(None) => Err(AppError::UnAuthorized),
    }
}

/// The claims of an access token, as plain values.
pub struct ClaimsView {
    pub sub: Seq<char>,
    pub exp: usize,
    pub username: Seq<char>,
    pub permissions: Seq<Seq<char>>,
    pub otp_enabled: bool,
    pub otp_passed: bool,
}

/// The claims that an access token carries: who the user is, when the token expires, the
/// names of the user's permissions, and the state of the second factor.
#[derive(Debug, PartialEq, Eq)]
pub struct AccessTokenPayload {
    pub sub: String,
    pub exp: usize,
    pub username: String,
    pub permissions: Vec<String>,
    pub otp_enabled: bool,
    pub otp_passed: bool,
}

/// The texts of a sequence of strings.
pub open spec fn texts(strings: Seq<String>) -> Seq<Seq<char>> {
    strings.map_values(|s: String| s@)
}

impl View for AccessTokenPayload {
    type V = ClaimsView;

    open spec fn view(&self) -> ClaimsView {
        ClaimsView {
            sub: self.sub@,
            exp: self.exp,
            username: self.username@,
            permissions: texts(self.permissions@),
            otp_enabled: self.otp_enabled,
            otp_passed: self.otp_passed,
        }
    }
}

/// Some of the `required` permission names is among the `held` ones.
pub open spec fn holds_any(held: Seq<Seq<char>>, required: Seq<Seq<char>>) -> bool {
    exists|i: int| 0 <= i < required.len() && held.contains(#[trigger] required[i])
}

/// The texts of a sequence of string slices.
pub open spec fn slice_texts(strings: Seq<&str>) -> Seq<Seq<char>> {
    strings.map_values(|s: &str| s@)
}

/// The expiry of a token issued at time `now` (seconds since the Unix epoch).
pub open spec fn expiry_after(now: i64) -> usize {
    (now + TOKEN_LIFETIME_SECONDS) as usize
}

/// The times that the clock can give, in seconds since the Unix epoch: chrono's range of dates
/// (years -262143 to 262142) lies within these bounds.
pub open spec fn clock_reading(now: i64) -> bool {
    -10_000_000_000_000 <= now <= 10_000_000_000_000
}

/// The claims of a token for a user, issued at time `now` and valid for an hour.
pub open spec fn issued_claims(
    user_id: i64,
    username: Seq<char>,
    permissions: Seq<Seq<char>>,
    otp_enabled: bool,
    otp_passed: bool,
    now: i64,
) -> ClaimsView {
    ClaimsView {
        sub: decimal_text(user_id as int),
        exp: expiry_after(now),
        username,
        permissions,
        otp_enabled,
        otp_passed,
    }
}

/// Calls `Utc::now().timestamp()` from chrono: the current time in seconds since the Unix epoch.
/// It depends on the clock; the contract claims only the bound that chrono's range of dates
/// (years -262143 to 262142) puts on it.
#[verifier::external_body]
pub(crate) fn now_timestamp() -> (r: i64)
    ensures
        clock_reading(r),
{
    chrono::Utc::now().timestamp()
}

impl AccessTokenPayload {
    /// The claims of a token for a user, issued now and valid for an hour.
    pub fn new(
        user_id: i64,
        username: &str,
        permissions: Vec<String>,
        otp_enabled: bool,
        otp_passed: bool,
    ) -> (r: AccessTokenPayload)
        ensures
            exists|now: i64|
                #[trigger] clock_reading(now) && r@ == issued_claims(
                    user_id,
                    username@,
                    texts(permissions@),
                    otp_enabled,
                    otp_passed,
                    now,
                ),
    {
        let now = now_timestamp();
        Self::issued_at(user_id, username, permissions, otp_enabled, otp_passed, now)
    }

    /// The claims of a token for a user, issued at time `now` and valid for an hour.
    pub fn issued_at(
        user_id: i64,
        username: &str,
        permissions: Vec<String>,
        otp_enabled: bool,
        otp_passed: bool,
        now: i64,
    ) -> (r: AccessTokenPayload)
        requires
            now <= i64::MAX - TOKEN_LIFETIME_SECONDS,
        ensures
            r@ == issued_claims(user_id, username@, texts(permissions@), otp_enabled, otp_passed, now),
    {
        let exp = (now + TOKEN_LIFETIME_SECONDS) as usize;
        AccessTokenPayload {
            sub: i64_to_string(user_id),
            exp,
            username: username.to_owned(),
            permissions,
            otp_enabled,
            otp_passed,
        }
    }

    /// Succeeds when the token carries at least one of the `permissions` asked for; otherwise,
    /// and whenever none is asked for, the request is unauthorized.
    pub fn check_permissions(&self, permissions: Vec<&str>) -> (r: Result<(), AppError>)
        ensures
            r is Ok <==> holds_any(self@.permissions, slice_texts(permissions@)),
            r is Err ==> r == Err::<(), AppError>(AppError::UnAuthorized),
    {
        if !permissions.is_empty() && self.permissions.is_empty() {
            return Err(AppError::UnAuthorized);
        }
        let mut i: usize = 0;
        while i < permissions.len()
            invariant
                0 <= i <= permissions@.len(),
                forall|k: int|
                    0 <= k < i ==> !texts(self.permissions@).contains(
                        #[trigger] slice_texts(permissions@)[k],
                    ),
            decreases permissions@.len() - i,
        {
            if self.holds(permissions[i]) {
                assert(slice_texts(permissions@)[i as int] == permissions@[i as int]@);
                return Ok(());
            }
            i += 1;
        }
        Err(AppError::UnAuthorized)
    }

    /// Whether the token carries permission `wanted`.
    fn holds(&self, wanted: &str) -> (r: bool)
        ensures
            r == texts(self.permissions@).contains(wanted@),
    {
        let wanted_text = wanted.to_owned();
        let mut j: usize = 0;
        while j < self.permissions.len()
            invariant
                0 <= j <= self.permissions@.len(),
                wanted_text@ == wanted@,
                forall|m: int| 0 <= m < j ==> self.permissions@[m]@ != wanted@,
            decreases self.permissions@.len() - j,
        {
            if self.permissions[j] == wanted_text {
                assert(texts(self.permissions@)[j as int] == wanted@);
                return true;
            }
            j += 1;
        }
        assert forall|m: int| 0 <= m < texts(self.permissions@).len() implies texts(
            self.permissions@,
        )[m] != wanted@ by {}
        false
    }
}

/// The token that `jsonwebtoken::encode` makes of `claims` with the default header (HS256) and
/// an HMAC key made of `secret`.
pub uninterp spec fn signed_token(claims: ClaimsView, secret: Seq<u8>) -> Seq<char>;

/// Calls `jsonwebtoken::encode` with the default header (HS256), the claims as a JSON object of
/// the payload's six fields in their declared order, and an HMAC key made from `secret`. As the
/// source shows, it succeeds: the key's family is the header's (HMAC), a JSON object of strings,
/// numbers and booleans always serializes, and HMAC signing does not fail. The token is
/// `signed_token` of the claims and the secret.
#[verifier::external_body]
fn encode_token(payload: &AccessTokenPayload, secret: &[u8]) -> (r: Result<
    String,
    jsonwebtoken::errors::Error,
>)
    ensures
        r is Ok,
        r matches Ok(t) ==> t@ == signed_token(payload@, secret@),
{
    let mut claims = serde_json::Map::new();
    claims.insert("sub".to_string(), Value::from(payload.sub.clone()));
    claims.insert("exp".to_string(), Value::from(payload.exp));
    claims.insert("username".to_string(), Value::from(payload.username.clone()));
    claims.insert("permissions".to_string(), Value::from(payload.permissions.clone()));
    claims.insert("otp_enabled".to_string(), Value::from(payload.otp_enabled));
    claims.insert("otp_passed".to_string(), Value::from(payload.otp_passed));
    let key = EncodingKey::from_secret(secret);
    jsonwebtoken::encode(&Header::default(), &Value::Object(claims), &key)
}

/// The key with which the service signs and checks its tokens.
pub open spec fn signing_secret() -> Seq<u8> {
    "Abecedario".spec_bytes()
}

/// Issues signed access tokens.
#[derive(Clone, Copy, Debug)]
pub struct JwtEncryption;

impl JwtEncryption {
    /// A token issuer.
    pub fn new() -> (r: JwtEncryption)
        ensures
            r == JwtEncryption,
    {
        JwtEncryption {}
    }

    /// The signed token of `payload`. Signing with the service's key does not fail; a failure
    /// would make the request unauthorized.
    pub fn generate_access_token(&self, payload: AccessTokenPayload) -> (r: Result<String, AppError>)
        ensures
            r matches Ok(t) && t@ == signed_token(payload@, signing_secret()),
    {
        let secret = "Abecedario".as_bytes();
        match encode_token(&payload, secret) {
            Ok(token) => Ok(token),
            Err(_) => Err(AppError::UnAuthorized),
        }
    }
}

/// The claims that `token` carries when it is a JWT whose header names HS256, whose signature is
/// the HMAC of its header and payload under `secret`, and whose payload is a JSON object with the
/// six claim fields of the right types; `None` for any other token.
pub uninterp spec fn token_claims(token: Seq<char>, secret: Seq<u8>) -> Option<ClaimsView>;

/// Calls `jsonwebtoken::decode` with an HMAC key made from `secret` and the default validation
/// (HS256, a required `exp` claim) with its check of `exp` against the clock turned off: the
/// caller checks the expiry. The claims are decoded into a JSON value and the six fields are read
/// from it with `serde_json::from_value`. On success the payload is `token_claims` of the token
/// and the secret; a token without such claims fails. As the source shows, a token that
/// `encode_token` signed with the same secret is accepted and gives back the claims it was signed
/// over: the header names HS256, the signature matches, `exp` is there, and the JSON written is
/// read back field for field. The call still reads the clock, and panics on a clock set before the
/// Unix epoch.
#[verifier::external_body]
fn decode_token(token: &str, secret: &[u8]) -> (r: Result<
    AccessTokenPayload,
    jsonwebtoken::errors::Error,
>)
    ensures
        r matches Ok(p) ==> token_claims(token@, secret@) == Some(p@),
        token_claims(token@, secret@) is None ==> r is Err,
        forall|c: ClaimsView|
            #[trigger] signed_token(c, secret@) == token@ ==> (r is Ok && r->Ok_0@ == c),
{
    let key = DecodingKey::from_secret(secret);
    let mut validation = Validation::default();
    validation.validate_exp = false;
    let claims = jsonwebtoken::decode::<Value>(token, &key, &validation)?.claims;
    Ok(AccessTokenPayload {
        sub: serde_json::from_value(claims["sub"].clone())?,
        exp: serde_json::from_value(claims["exp"].clone())?,
        username: serde_json::from_value(claims["username"].clone())?,
        permissions: serde_json::from_value(claims["permissions"].clone())?,
        otp_enabled: serde_json::from_value(claims["otp_enabled"].clone())?,
        otp_passed: serde_json::from_value(claims["otp_passed"].clone())?,
    })
}

/// How long past its expiry a token is still accepted, in seconds: `jsonwebtoken`'s default leeway.
pub const EXPIRY_LEEWAY_SECONDS: i64 = 60;

/// A token whose claims expire at `exp` is still good at time `now`: `jsonwebtoken` refuses it only
/// once `exp` lies more than the leeway before `now`.
pub open spec fn fresh(exp: usize, now: i64) -> bool {
    now <= exp + EXPIRY_LEEWAY_SECONDS
}

/// The token that a request carries, as text: the header's, or the query's when there is no
/// header; `None` when the header is malformed or the query cannot be read.
pub open spec fn source_token(source: TokenSource) -> Option<Seq<char>> {
    match source {
        TokenSource::Header(t) => Some(t@),
        TokenSource::Query(Some(t)) => Some(t@),
        _ => None,
    }
}

/// What reading the caller from `token` answers: without a token, or with a token that carries no
/// claims under the service's key, the request is unauthorized; a caller that is read is the
/// token's claims, and for a token that the service signed, the claims it was signed over.
pub open spec fn authenticated(token: Option<Seq<char>>, r: Result<AccessTokenPayload, AppError>) -> bool {
    match token {
        None => r == Err::<AccessTokenPayload, AppError>(AppError::UnAuthorized),
        Some(t) => {
            &&& match r {
                Ok(p) => token_claims(t, signing_secret()) == Some(p@),
                Err(e) => e == AppError::UnAuthorized,
            }
            &&& token_claims(t, signing_secret()) is None ==> r is Err
            &&& forall|c: ClaimsView|
                #[trigger] signed_token(c, signing_secret()) == t ==> (r matches Ok(p) ==> p@ == c)
        },
    }
}

/// The caller once its token is decoded: the claims, or an unauthorized request when decoding
/// failed, whatever the reason.
pub fn accept_decoded(decoded: Result<AccessTokenPayload, jsonwebtoken::errors::Error>) -> (r: Result<
    AccessTokenPayload,
    AppError,
>)
    ensures
        match decoded {
            Ok(p) => r == Ok::<AccessTokenPayload, AppError>(p),
            Err(_) => r == Err::<AccessTokenPayload, AppError>(AppError::UnAuthorized),
        },
{
    match decoded {
        Ok(p) => Ok(p),
        Err(_) => Err(AppError::UnAuthorized),
    }
}

/// What reading the caller from `token` at time `now` answers: without a token, with a token that
/// carries no claims under the service's key, or with claims that expired more than the leeway
/// before `now`, the request is unauthorized; a caller that is read is the token's claims. A token
/// that the service signed over claims `c` is accepted exactly while `c` is fresh, and gives `c`.
pub open spec fn authenticated_at(
    token: Option<Seq<char>>,
    now: i64,
    r: Result<AccessTokenPayload, AppError>,
) -> bool {
    match token {
        None => r == Err::<AccessTokenPayload, AppError>(AppError::UnAuthorized),
        Some(t) => {
            &&& match r {
                Ok(p) => token_claims(t, signing_secret()) == Some(p@) && fresh(p.exp, now),
                Err(e) => e == AppError::UnAuthorized,
            }
            &&& token_claims(t, signing_secret()) is None ==> r is Err
            &&& forall|c: ClaimsView|
                #[trigger] signed_token(c, signing_secret()) == t ==> if fresh(c.exp, now) {
                    r matches Ok(p) && p@ == c
                } else {
                    r is Err
                }
        },
    }
}

/// The caller of a request at time `now`: the claims of the token that the request carries,
/// checked against the service's key and against `now`.
pub fn current_user_at(source: TokenSource, now: i64) -> (r: Result<AccessTokenPayload, AppError>)
    ensures
        authenticated_at(source_token(source), now, r),
{
    let bearer = match bearer_token(source) {
        Ok(t) => t,
        Err(e) => {
            return Err(e);
        },
    };
    let secret = "Abecedario".as_bytes();
    let decoded = decode_token(bearer.as_str(), secret);
    let payload = match accept_decoded(decoded) {
        Ok(p) => p,
        Err(e) => {
            return Err(e);
        },
    };
    if (now as i128) > (payload.exp as i128) + (EXPIRY_LEEWAY_SECONDS as i128) {
        return Err(AppError::UnAuthorized);
    }
    Ok(payload)
}

/// The caller of a request now: as `current_user_at` with the time that the clock gives.
pub fn current_user(source: TokenSource) -> (r: Result<AccessTokenPayload, AppError>)
    ensures
        authenticated(source_token(source), r),
        exists|now: i64| #[trigger] clock_reading(now) && authenticated_at(source_token(source), now, r),
{
    let now = now_timestamp();
    current_user_at(source, now)
}

/// A token that the service signed is accepted at a time exactly when its claims are still fresh
/// then, and it gives back exactly the claims it was signed over, whatever they list.
pub proof fn law_signed_token_accepted_while_fresh(
    claims: ClaimsView,
    now: i64,
    r: Result<AccessTokenPayload, AppError>,
)
    requires
        authenticated_at(Some(signed_token(claims, signing_secret())), now, r),
    ensures
        r is Ok <==> now <= claims.exp + 60,
        r is Ok ==> r->Ok_0@ == claims,
        r is Err ==> r == Err::<AccessTokenPayload, AppError>(AppError::UnAuthorized),
{
    assert(signed_token(claims, signing_secret()) == signed_token(claims, signing_secret()));
}

/// A token that the service signed, when it is accepted, gives back exactly the claims it was
/// signed over.
pub proof fn law_signed_claims_read_back(claims: ClaimsView, r: Result<AccessTokenPayload, AppError>)
    requires
        authenticated(Some(signed_token(claims, signing_secret())), r),
        r is Ok,
    ensures
        r->Ok_0@ == claims,
{
}

} // verus!
