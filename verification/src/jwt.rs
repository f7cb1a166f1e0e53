//! Temporary means of equating a request signature to an aircraft identifier.
//!
//! Remote ID message types are not guaranteed to contain the aircraft
//! identifier (the basic message type does, location does not). The aircraft
//! logs in with its identifier and is given a signed, short-lived token in
//! return. The token authenticates its later requests and names the aircraft,
//! so that all of its remote id can be stored under the right identifier.
//!
//! The server keeps no session: a token is trusted for what its signature
//! proves and for as long as it has not expired.

use crate::clock::unix_now;
use crate::error::{fail_word, ErrorResponse, ErrorResponseView, GatewayError};
use crate::hs256::{hs256_claims, hs256_token, read_claims, sign_claims};
use crate::text::string_from_utf8;
use vstd::prelude::*;
use vstd::slice::slice_to_vec;
use vstd::string::{StrSliceExecFns, StringSliceAdditionalSpecFns};
use vstd::utf8::{
    decode_utf8, encode_utf8, is_leading_byte_width_1, partial_valid_utf8,
    partial_valid_utf8_extend_ascii_block, valid_utf8,
};

verus! {

/// Token lifetime in seconds.
pub const JWT_EXPIRE_SECONDS: usize = 360;

/// What a `Claim` says.
pub struct ClaimView {
    pub sub: Seq<char>,
    pub iat: nat,
    pub exp: nat,
}

/// JWT Information
#[derive(Debug)]
pub struct Claim {
    /// Subject
    pub sub: String,
    /// Issued at time in seconds
    pub iat: usize,
    /// Expiration time in seconds
    pub exp: usize,
}

impl View for Claim {
    type V = ClaimView;

    open spec fn view(&self) -> ClaimView {
        ClaimView { sub: self.sub@, iat: self.iat as nat, exp: self.exp as nat }
    }
}

impl Clone for Claim {
    fn clone(&self) -> (r: Self)
        ensures
            r == *self,
    {
        Claim { sub: self.sub.clone(), iat: self.iat, exp: self.exp }
    }
}

/// A result whose success is seen through its view.
pub open spec fn ok_view<T: View, E>(r: Result<T, E>) -> Result<T::V, E> {
    match r {
        Ok(t) => Ok(t@),
        Err(e) => Err(e),
    }
}

/// The bytes of an optional secret.
pub open spec fn secret_bytes(secret: Option<&str>) -> Option<Seq<u8>> {
    match secret {
        Some(s) => Some(s.spec_bytes()),
        None => None,
    }
}

/// The claim that a token issued for `sub` at time `now` (seconds since the
/// epoch) carries: `{sub, iat: now, exp: now + JWT_EXPIRE_SECONDS}`. A time
/// that does not fit the token's numeric range, now or at expiry, is a clock
/// error.
pub open spec fn claim_spec(sub: Seq<char>, now: int) -> Result<ClaimView, GatewayError> {
    if now < 0 || now + JWT_EXPIRE_SECONDS > usize::MAX {
        Err(GatewayError::ClockError)
    } else {
        Ok(ClaimView { sub, iat: now as nat, exp: (now + JWT_EXPIRE_SECONDS) as nat })
    }
}

/// What becomes of a freshly signed token once the signature check has read
/// it back: it is handed out if the check found the very claims that it was
/// signed for, and is a signing error otherwise.
pub open spec fn confirm_spec(
    claim: ClaimView,
    token: Seq<char>,
    read_back: Option<(Seq<char>, nat, nat)>,
) -> Result<Seq<char>, GatewayError> {
    if read_back == Some((claim.sub, claim.iat, claim.exp)) {
        Ok(token)
    } else {
        Err(GatewayError::SigningError)
    }
}

/// The outcome of issuing a token for `sub` at time `now`: no secret is a
/// configuration error; then the claim is made, signed, and the token
/// confirmed.
pub open spec fn issue_spec(sub: Seq<char>, now: int, secret: Option<Seq<u8>>) -> Result<
    Seq<char>,
    GatewayError,
> {
    match secret {
        None => Err(GatewayError::ConfigError),
        Some(key) => match claim_spec(sub, now) {
            Err(e) => Err(e),
            Ok(claim) => match hs256_token(claim.sub, claim.iat, claim.exp, key) {
                Some(token) => confirm_spec(claim, token, hs256_claims(token, key)),
                None => Err(GatewayError::SigningError),
            },
        },
    }
}

/// What the signature check found in a token, as plain values.
pub open spec fn claims_view(signed: Option<(String, u64, u64)>) -> Option<(Seq<char>, nat, nat)> {
    match signed {
        Some(c) => Some((c.0@, c.1 as nat, c.2 as nat)),
        None => None,
    }
}

/// The outcome of validating, at time `now`, what the signature check found
/// in a token: a token is accepted if and only if it is well signed, its
/// times fit the claim and `now` has not passed its expiry.
pub open spec fn validate_spec(signed: Option<(Seq<char>, nat, nat)>, now: int) -> Result<
    ClaimView,
    GatewayError,
> {
    match signed {
        Some((sub, iat, exp)) => if iat <= usize::MAX && exp <= usize::MAX && now <= exp {
            Ok(ClaimView { sub, iat, exp })
        } else {
            Err(GatewayError::Unauthorized)
        },
        None => Err(GatewayError::Unauthorized),
    }
}

/// The outcome of verifying `token` under `secret` at time `now`.
pub open spec fn verify_spec(token: Seq<char>, secret: Seq<u8>, now: int) -> Result<
    ClaimView,
    GatewayError,
> {
    validate_spec(hs256_claims(token, secret), now)
}

impl Claim {
    /// Create and encode a JWT token for `sub`, issued at the current time.
    pub fn create(sub: String, secret: Option<&str>) -> (r: Result<String, GatewayError>)
        ensures
            exists|now: i64|
                ok_view(r) == #[trigger] issue_spec(sub@, now as int, secret_bytes(secret)),
    {
        Claim::create_at(sub, unix_now(), secret)
    }

    /// Create and encode a JWT token for `sub`, issued at time `now`.
    ///
    /// No token is handed out that this service would not itself accept: the
    /// signed token is read back under the same secret, and is an error
    /// unless it carries the claims it was signed for.
    pub fn create_at(sub: String, now: i64, secret: Option<&str>) -> (r: Result<
        String,
        GatewayError,
    >)
        ensures
            ok_view(r) == issue_spec(sub@, now as int, secret_bytes(secret)),
    {
        let Some(jwt_secret) = secret else {
            return Err(GatewayError::ConfigError);
        };
        let claim = match Claim::issued_at(sub, now) {
            Ok(claim) => claim,
            Err(e) => {
                return Err(e);
            },
        };
        let key = jwt_secret.as_bytes();
        let Some(token) = sign_claims(claim.sub.as_str(), claim.iat, claim.exp, key) else {
            return Err(GatewayError::SigningError);
        };
        let read_back = read_claims(token.as_str(), key);
        claim.confirm(token, read_back)
    }

    /// The claim of a token issued for `sub` at time `now`.
    pub fn issued_at(sub: String, now: i64) -> (r: Result<Claim, GatewayError>)
        ensures
            ok_view(r) == claim_spec(sub@, now as int),
    {
        let Ok(iat) = usize::try_from(now) else {
            return Err(GatewayError::ClockError);
        };
        let Some(exp) = iat.checked_add(JWT_EXPIRE_SECONDS) else {
            return Err(GatewayError::ClockError);
        };
        Ok(Claim { sub, iat, exp })
    }

    /// Hands out a token signed for this claim, given what the signature
    /// check read back from it (`None`: nothing that is well signed).
    pub fn confirm(&self, token: String, read_back: Option<(String, u64, u64)>) -> (r: Result<
        String,
        GatewayError,
    >)
        ensures
            ok_view(r) == confirm_spec(self@, token@, claims_view(read_back)),
    {
        match read_back {
            Some((sub, iat, exp)) => {
                if sub == self.sub && iat == self.iat as u64 && exp == self.exp as u64 {
                    Ok(token)
                } else {
                    Err(GatewayError::SigningError)
                }
            },
            None => Err(GatewayError::SigningError),
        }
    }

    /// Decode a JWT token and check it against the current time.
    pub fn decode(token: String, secret: &str) -> (r: Result<Claim, GatewayError>)
        ensures
            exists|now: i64|
                ok_view(r) == #[trigger] verify_spec(token@, secret.spec_bytes(), now as int),
            r is Err ==> r == Err::<Claim, GatewayError>(GatewayError::Unauthorized),
    {
        Claim::decode_at(token.as_str(), secret, unix_now())
    }

    /// Decode a JWT token and check it against the time `now`.
    pub fn decode_at(token: &str, secret: &str, now: i64) -> (r: Result<Claim, GatewayError>)
        ensures
            ok_view(r) == verify_spec(token@, secret.spec_bytes(), now as int),
    {
        Claim::validate(read_claims(token, secret.as_bytes()), now)
    }

    /// Turns what the signature check found in a token (`None`: nothing that
    /// is well signed) into a claim, unless it has expired at time `now`.
    pub fn validate(signed: Option<(String, u64, u64)>, now: i64) -> (r: Result<
        Claim,
        GatewayError,
    >)
        ensures
            ok_view(r) == validate_spec(claims_view(signed), now as int),
    {
        let Some((sub, iat, exp)) = signed else {
            return Err(GatewayError::Unauthorized);
        };
        let Ok(iat) = usize::try_from(iat) else {
            return Err(GatewayError::Unauthorized);
        };
        let Ok(exp) = usize::try_from(exp) else {
            return Err(GatewayError::Unauthorized);
        };
        if now >= 0 && now as u64 > exp as u64 {
            return Err(GatewayError::Unauthorized);
        }
        Ok(Claim { sub, iat, exp })
    }
}

/// A token that was issued for `sub` at time `now` verifies, under the
/// secret it was signed with and at any time `at` up to its expiry, as the
/// claim `{sub, iat: now, exp}`, with `exp - iat` the fixed lifetime; at any
/// later time it is refused.
pub proof fn lemma_issued_token_verifies(
    sub: Seq<char>,
    now: int,
    secret: Seq<u8>,
    token: Seq<char>,
    at: int,
)
    requires
        issue_spec(sub, now, Some(secret)) == Ok::<Seq<char>, GatewayError>(token),
    ensures
        at <= now + JWT_EXPIRE_SECONDS ==> verify_spec(token, secret, at) == Ok::<
            ClaimView,
            GatewayError,
        >(ClaimView { sub, iat: now as nat, exp: (now + JWT_EXPIRE_SECONDS) as nat }),
        at > now + JWT_EXPIRE_SECONDS ==> verify_spec(token, secret, at) == Err::<
            ClaimView,
            GatewayError,
        >(GatewayError::Unauthorized),
{
}

/// A token handed out at a login verifies, under the secret it was signed
/// with and at any time `at` up to its expiry, as the claim of the reporter
/// that logged in: its subject is the identifier's text, and `exp - iat` is
/// the fixed lifetime.
pub proof fn lemma_login_token_verifies(
    identifier: Seq<u8>,
    now: int,
    secret: Seq<u8>,
    token: Seq<char>,
    at: int,
)
    requires
        login_spec(identifier, now, Some(secret)) == Ok::<Seq<char>, GatewayError>(token),
        at <= now + JWT_EXPIRE_SECONDS,
    ensures
        identifier.len() > 0,
        valid_utf8(identifier),
        verify_spec(token, secret, at) == Ok::<ClaimView, GatewayError>(
            ClaimView {
                sub: decode_utf8(identifier),
                iat: now as nat,
                exp: (now + JWT_EXPIRE_SECONDS) as nat,
            },
        ),
{
    lemma_issued_token_verifies(decode_utf8(identifier), now, secret, token, at);
}

/// Verification has two outcomes only. It gives the claims that the token
/// carries under a signature made with the secret, and then the time has not
/// passed their expiry; or it fails, and then with `Unauthorized`.
pub proof fn lemma_verify_outcomes(token: Seq<char>, secret: Seq<u8>, now: int)
    ensures
        match verify_spec(token, secret, now) {
            Ok(claim) => hs256_claims(token, secret) == Some((claim.sub, claim.iat, claim.exp))
                && now <= claim.exp,
            Err(e) => e == GatewayError::Unauthorized,
        },
{
}

/// Once the time has passed the expiry that a token carries, the token is
/// refused with `Unauthorized`, whoever signed it.
pub proof fn lemma_expired_token_is_refused(token: Seq<char>, secret: Seq<u8>, now: int)
    requires
        hs256_claims(token, secret) matches Some(claims) && now > claims.2,
    ensures
        verify_spec(token, secret, now) == Err::<ClaimView, GatewayError>(
            GatewayError::Unauthorized,
        ),
{
}

/// The `Authorization` header of a request, as far as it can be read.
#[derive(Debug)]
pub enum AuthorizationHeader {
    /// The request carries no such header.
    Missing,
    /// The header is there, but its value is not visible ASCII text.
    Unreadable,
    /// The header's value.
    Value(String),
}

/// Whether a header's value is text that can be read: visible ASCII
/// characters and tabs only. (This is the rule by which the `http` crate's
/// `HeaderValue::to_str` reads a value as text.)
pub open spec fn visible_ascii(bytes: Seq<u8>) -> bool {
    forall|i: int| 0 <= i < bytes.len() ==> visible_byte(#[trigger] bytes[i])
}

/// A visible ASCII character, or a tab.
pub open spec fn visible_byte(b: u8) -> bool {
    32 <= b < 127 || b == 9
}

impl AuthorizationHeader {
    /// Reads the raw value of the header (`None`: the request has none).
    pub fn from_bytes(raw: Option<&[u8]>) -> (r: Self)
        ensures
            match raw {
                None => r is Missing,
                Some(bytes) => if visible_ascii(bytes@) {
                    r matches AuthorizationHeader::Value(text) && encode_utf8(text@) == bytes@
                } else {
                    r is Unreadable
                },
            },
    {
        let Some(bytes) = raw else {
            return AuthorizationHeader::Missing;
        };
        let mut i: usize = 0;
        while i < bytes.len()
            invariant
                raw == Some(bytes),
                i <= bytes@.len(),
                forall|j: int| 0 <= j < i ==> visible_byte(#[trigger] bytes@[j]),
            decreases bytes@.len() - i,
        {
            let b = bytes[i];
            if !(32 <= b && b < 127 || b == 9) {
                assert(!visible_byte(bytes@[i as int]));
                return AuthorizationHeader::Unreadable;
            }
            i += 1;
        }
        proof {
            assert forall|j: int| 0 <= j < bytes@.len() implies #[trigger] is_leading_byte_width_1(
                bytes@[j],
            ) by {
                assert(visible_byte(bytes@[j]));
            }
            assert(bytes@.subrange(0, 0) =~= Seq::<u8>::empty());
            assert(partial_valid_utf8(bytes@, 0));
            partial_valid_utf8_extend_ascii_block(bytes@, 0, bytes@.len() as int);
            assert(bytes@.subrange(0, bytes@.len() as int) =~= bytes@);
        }
        match string_from_utf8(slice_to_vec(bytes)) {
            Some(text) => AuthorizationHeader::Value(text),
            None => AuthorizationHeader::Unreadable,
        }
    }
}

/// The scheme word, and the space after it, that precede a bearer token.
pub open spec fn bearer_prefix() -> Seq<char> {
    seq!['B', 'e', 'a', 'r', 'e', 'r', ' ']
}

/// The token of an `Authorization` value of the form `Bearer <token>`.
pub open spec fn bearer_token(value: Seq<char>) -> Option<Seq<char>> {
    if bearer_prefix().is_prefix_of(value) {
        Some(value.skip(7))
    } else {
        None
    }
}

/// The bearer token of a request, or the message that says why it has none:
/// the cookie named `token` comes first, then the `Authorization` header.
pub open spec fn token_spec(authorization: AuthorizationHeader, cookie: Option<&str>) -> Result<
    Seq<char>,
    Seq<char>,
> {
    match cookie {
        Some(value) => Ok(value@),
        None => match authorization {
            AuthorizationHeader::Missing => Err("could not get authorization header."@),
            AuthorizationHeader::Unreadable => Err("could not parse authorization header."@),
            AuthorizationHeader::Value(value) => match bearer_token(value@) {
                Some(token) => Ok(token),
                None => Err("You are not logged in, please provide token."@),
            },
        },
    }
}

/// A rejection as seen in contracts: the error and what its body says.
pub open spec fn rejection_view(e: (GatewayError, ErrorResponse)) -> (
    GatewayError,
    ErrorResponseView,
) {
    (e.0, e.1@)
}

/// The rejection that answers a request without a usable token.
pub open spec fn unauthorized(message: Seq<char>) -> (GatewayError, ErrorResponseView) {
    (GatewayError::Unauthorized, ErrorResponseView { status: fail_word(), message })
}

/// The outcome of authenticating a request at time `now`.
pub open spec fn auth_spec(
    authorization: AuthorizationHeader,
    cookie: Option<&str>,
    secret: Seq<u8>,
    now: int,
) -> Result<ClaimView, (GatewayError, ErrorResponseView)> {
    match token_spec(authorization, cookie) {
        Ok(token) => match verify_spec(token, secret, now) {
            Ok(claim) => Ok(claim),
            Err(_) => Err(unauthorized("Invalid token"@)),
        },
        Err(message) => Err(unauthorized(message)),
    }
}

/// The outcome of a login with the raw `identifier` at time `now`.
pub open spec fn login_spec(identifier: Seq<u8>, now: int, secret: Option<Seq<u8>>) -> Result<
    Seq<char>,
    GatewayError,
> {
    if identifier.len() == 0 || !valid_utf8(identifier) {
        Err(GatewayError::BadRequest)
    } else {
        issue_spec(decode_utf8(identifier), now, secret)
    }
}

/// The token after the words `Bearer ` of an `Authorization` value.
pub fn strip_bearer(value: &str) -> (r: Option<String>)
    ensures
        match r {
            Some(token) => bearer_token(value@) == Some(token@),
            None => bearer_token(value@) is None,
        },
{
    let n = value.unicode_len();
    if n < 7 {
        return None;
    }
    if value.get_char(0) != 'B' || value.get_char(1) != 'e' || value.get_char(2) != 'a'
        || value.get_char(3) != 'r' || value.get_char(4) != 'e' || value.get_char(5) != 'r'
        || value.get_char(6) != ' ' {
        return None;
    }
    let token = value.substring_char(7, n);
    assert(bearer_prefix() =~= value@.subrange(0, 7));
    assert(value@.skip(7) =~= value@.subrange(7, n as int));
    Some(token.to_owned())
}

/// Get bearer token from request
pub fn get_token_from_cookie_jar(authorization: &AuthorizationHeader, cookie: Option<&str>) -> (r:
    Result<String, (GatewayError, ErrorResponse)>)
    ensures
        match token_spec(*authorization, cookie) {
            Ok(token) => r matches Ok(t) && t@ == token,
            Err(message) => r matches Err(e) && rejection_view(e) == unauthorized(message),
        },
{
    if let Some(value) = cookie {
        return Ok(value.to_owned());
    }
    let message = match authorization {
        AuthorizationHeader::Missing => "could not get authorization header.".to_owned(),
        AuthorizationHeader::Unreadable => "could not parse authorization header.".to_owned(),
        AuthorizationHeader::Value(value) => {
            if let Some(token) = strip_bearer(value.as_str()) {
                return Ok(token);
            }
            "You are not logged in, please provide token.".to_owned()
        },
    };
    Err((GatewayError::Unauthorized, ErrorResponse::fail(message)))
}

/// Authenticate a request with a JWT, against the current time. On success
/// the claim is what the handler of the route finds attached to the request.
pub fn auth(authorization: &AuthorizationHeader, cookie: Option<&str>, secret: &str) -> (r: Result<
    Claim,
    (GatewayError, ErrorResponse),
>)
    ensures
        exists|now: i64| #[trigger]
            auth_result(r, auth_spec(*authorization, cookie, secret.spec_bytes(), now as int)),
{
    let now = unix_now();
    let r = auth_at(authorization, cookie, secret, now);
    assert(auth_result(r, auth_spec(*authorization, cookie, secret.spec_bytes(), now as int)));
    r
}

/// `r` is the outcome `expected`, seen through the views of its parts.
pub open spec fn auth_result(
    r: Result<Claim, (GatewayError, ErrorResponse)>,
    expected: Result<ClaimView, (GatewayError, ErrorResponseView)>,
) -> bool {
    match expected {
        Ok(claim) => r matches Ok(c) && c@ == claim,
        Err(rejection) => r matches Err(e) && rejection_view(e) == rejection,
    }
}

/// Authenticate a request with a JWT, against the time `now`.
pub fn auth_at(
    authorization: &AuthorizationHeader,
    cookie: Option<&str>,
    secret: &str,
    now: i64,
) -> (r: Result<Claim, (GatewayError, ErrorResponse)>)
    ensures
        auth_result(r, auth_spec(*authorization, cookie, secret.spec_bytes(), now as int)),
{
    let token = match get_token_from_cookie_jar(authorization, cookie) {
        Ok(token) => token,
        Err(rejection) => {
            return Err(rejection);
        },
    };
    match Claim::decode_at(token.as_str(), secret, now) {
        Ok(claim) => Ok(claim),
        Err(_) => Err(
            (GatewayError::Unauthorized, ErrorResponse::fail("Invalid token".to_owned())),
        ),
    }
}

/// Remote ID Login, at the current time.
pub fn login(identifier: Vec<u8>, secret: Option<&str>) -> (r: Result<String, GatewayError>)
    ensures
        exists|now: i64|
            ok_view(r) == #[trigger] login_spec(identifier@, now as int, secret_bytes(secret)),
{
    login_at(identifier, unix_now(), secret)
}

/// Remote ID Login, at time `now`: the identifier must be non-empty text.
pub fn login_at(identifier: Vec<u8>, now: i64, secret: Option<&str>) -> (r: Result<
    String,
    GatewayError,
>)
    ensures
        ok_view(r) == login_spec(identifier@, now as int, secret_bytes(secret)),
{
    broadcast use vstd::utf8::encode_utf8_decode_utf8;

    if identifier.len() == 0 {
        return Err(GatewayError::BadRequest);
    }
    let ghost raw = identifier@;
    let Some(identifier) = string_from_utf8(identifier) else {
        return Err(GatewayError::BadRequest);
    };
    assert(identifier@ == decode_utf8(raw));
    Claim::create_at(identifier, now, secret)
}

} // verus!
