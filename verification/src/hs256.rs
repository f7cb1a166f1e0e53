//! Signing and checking of HS256 tokens. Both are the work of the
//! `jsonwebtoken` crate. Nothing is proved of them here, and nothing is
//! claimed of them but that each gives the same answer to the same question.

use jsonwebtoken::{decode, encode, Algorithm, DecodingKey, EncodingKey, Header, Validation};
use vstd::prelude::*;

verus! {

/// The token that `jsonwebtoken::encode` makes of an HS256 header and the
/// claims `{sub, iat, exp}` under the HMAC key `secret`; `None` where it
/// reports an error.
pub uninterp spec fn hs256_token(sub: Seq<char>, iat: nat, exp: nat, secret: Seq<u8>) -> Option<
    Seq<char>,
>;

/// What `jsonwebtoken::decode` finds in `token` under the HMAC key `secret`,
/// with its own expiry check switched off: the claims `sub`, `iat` and `exp`
/// of a well-formed token whose HS256 signature matches, `None` for every
/// other token.
pub uninterp spec fn hs256_claims(token: Seq<char>, secret: Seq<u8>) -> Option<
    (Seq<char>, nat, nat),
>;

/// Calls `jsonwebtoken::encode` with `Header::new(Algorithm::HS256)`, a JSON
/// object of the three claims and `EncodingKey::from_secret(secret)`.
///
/// Trusted: the result is a function of the arguments.
#[verifier::external_body]
pub(crate) fn sign_claims(sub: &str, iat: usize, exp: usize, secret: &[u8]) -> (r: Option<String>)
    ensures
        match r {
            Some(t) => hs256_token(sub@, iat as nat, exp as nat, secret@) == Some(t@),
            None => hs256_token(sub@, iat as nat, exp as nat, secret@) is None,
        },
{
    let mut claims = serde_json::Map::new();
    claims.insert("sub".to_owned(), serde_json::Value::from(sub));
    claims.insert("iat".to_owned(), serde_json::Value::from(iat));
    claims.insert("exp".to_owned(), serde_json::Value::from(exp));
    encode(&Header::new(Algorithm::HS256), &claims, &EncodingKey::from_secret(secret)).ok()
}

/// Calls `jsonwebtoken::decode` with `DecodingKey::from_secret(secret)` and
/// `Validation::new(Algorithm::HS256)` whose `validate_exp` is off, so that
/// the outcome does not depend on the clock, and hands out the three claims.
///
/// Trusted: the result is a function of the arguments.
#[verifier::external_body]
pub(crate) fn read_claims(token: &str, secret: &[u8]) -> (r: Option<(String, u64, u64)>)
    ensures
        match r {
            Some(c) => hs256_claims(token@, secret@) == Some((c.0@, c.1 as nat, c.2 as nat)),
            None => hs256_claims(token@, secret@) is None,
        },
{
    let mut rules = Validation::new(Algorithm::HS256);
    rules.validate_exp = false;
    let key = DecodingKey::from_secret(secret);
    let claims = decode::<serde_json::Value>(token, &key, &rules).ok()?.claims;
    let sub = claims.get("sub")?.as_str()?.to_owned();
    let iat = claims.get("iat")?.as_u64()?;
    let exp = claims.get("exp")?.as_u64()?;
    Some((sub, iat, exp))
}

} // verus!
