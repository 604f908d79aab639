//! Signing and checking session tokens.
//!
//! A session token is a signed-claims token under HMAC-SHA-256 whose payload
//! holds exactly the four session claims.  The token format and the signature
//! are `jsonwebtoken`'s; what this module proves is everything decided around
//! them: which decoded payloads are sessions, and when a session has expired.

use crate::utils::{AuthError, JwtClaims};
use vstd::prelude::*;

verus! {

/// `jsonwebtoken::errors::Error`: why a token was not made or not read.  It
/// is carried through unread.
#[verifier::external_type_specification]
#[verifier::external_body]
pub struct ExTokenError(jsonwebtoken::errors::Error);

/// A session lasts fourteen days, counted in seconds.
pub const SESSION_SECONDS: i64 = 1_209_600;

/// The four claims as a decoder found them in a payload: each one is the
/// integer it read, or absent if the payload holds no integer under that name.
#[derive(Clone, Copy, Debug, PartialEq, Eq, Structural)]
pub struct DecodedClaims {
    pub user_id: Option<i64>,
    pub company_id: Option<i64>,
    pub role_id: Option<i64>,
    pub exp: Option<i64>,
}

/// The token that `jsonwebtoken::encode` produces for the four claims under
/// `secret`, where it produces one.
pub uninterp spec fn hs256_token(
    user_id: i32,
    company_id: i32,
    role_id: i32,
    exp: i64,
    secret: Seq<u8>,
) -> Option<Seq<char>>;

/// What `jsonwebtoken::decode` reads from `token` under `secret`, where the
/// token is well formed and its signature is the one that `secret` gives.
/// Expiry plays no part in it.
pub uninterp spec fn hs256_claims(token: Seq<char>, secret: Seq<u8>) -> Option<DecodedClaims>;

/// The signature text that `jsonwebtoken::crypto::sign` gives for `message`
/// under `secret` with HMAC-SHA-256.
pub uninterp spec fn hs256_signature(message: Seq<char>, secret: Seq<u8>) -> Seq<char>;

/// `token` holds a `.` at `a` and at `b`, and nowhere else: it is three parts,
/// of which the first two are the signed message and the third the signature.
pub open spec fn three_parts(token: Seq<char>, a: int, b: int) -> bool {
    &&& 0 <= a < b < token.len()
    &&& forall|k: int|
        0 <= k < token.len() ==> ((#[trigger] token[k]) == '.' <==> (k == a || k == b))
}

/// `token` is three parts, and its third part is the signature that `secret`
/// gives for the first two.
pub open spec fn signed_form(token: Seq<char>, secret: Seq<u8>) -> bool {
    exists|a: int, b: int| #[trigger]
        three_parts(token, a, b) && token.skip(b + 1) == hs256_signature(token.take(b), secret)
}

/// The claims of a session as a decoder reports them.
pub open spec fn reported(claims: JwtClaims) -> DecodedClaims {
    DecodedClaims {
        user_id: Some(claims.user_id as i64),
        company_id: Some(claims.company_id as i64),
        role_id: Some(claims.role_id as i64),
        exp: Some(claims.exp),
    }
}

/// Calls `jsonwebtoken::encode` with the default header (HMAC-SHA-256) on a
/// JSON object that holds the four claims under their names, in the order
/// `user_id`, `company_id`, `role_id`, `exp`.
///
/// Trusted: the outcome is a function of the claims and the secret alone, and
/// a token that comes out decodes again, under the same secret, to the claims
/// that went in.  Whether a token comes out is not claimed.
#[verifier::external_body]
pub(crate) fn encode_hs256(claims: &JwtClaims, secret: &[u8]) -> (r: Result<
    String,
    jsonwebtoken::errors::Error,
>)
    ensures
        match r {
            Ok(token) => {
                &&& hs256_token(
                    claims.user_id,
                    claims.company_id,
                    claims.role_id,
                    claims.exp,
                    secret@,
                ) == Some(token@)
                &&& hs256_claims(token@, secret@) == Some(reported(*claims))
            },
            Err(_) => hs256_token(
                claims.user_id,
                claims.company_id,
                claims.role_id,
                claims.exp,
                secret@,
            ) is None,
        },
{
    let mut payload = serde_json::Map::new();
    payload.insert("user_id".to_owned(), claims.user_id.into());
    payload.insert("company_id".to_owned(), claims.company_id.into());
    payload.insert("role_id".to_owned(), claims.role_id.into());
    payload.insert("exp".to_owned(), claims.exp.into());
    let key = jsonwebtoken::EncodingKey::from_secret(secret);
    jsonwebtoken::encode(&jsonwebtoken::Header::default(), &payload, &key)
}

/// Calls `jsonwebtoken::decode` for HMAC-SHA-256 with every check on the
/// payload's registered claims switched off, so that only the token's form
/// and its signature decide, and picks the four claims out of the payload.
///
/// Trusted: the outcome is a function of the token and the secret alone, and
/// a token is read only if it is in signed form: three parts divided by `.`,
/// the third being the text that `jsonwebtoken::crypto::sign` gives for the
/// first two.  The call reads the clock without using it, and panics on a
/// machine whose clock stands before 1970.
#[verifier::external_body]
pub(crate) fn decode_hs256(token: &str, secret: &[u8]) -> (r: Result<
    DecodedClaims,
    jsonwebtoken::errors::Error,
>)
    ensures
        match r {
            Ok(decoded) => {
                &&& hs256_claims(token@, secret@) == Some(decoded)
                &&& exists|a: int, b: int| #[trigger]
                    three_parts(token@, a, b) && token@.skip(b + 1) == hs256_signature(
                        token@.take(b),
                        secret@,
                    )
            },
            Err(_) => hs256_claims(token@, secret@) is None,
        },
{
    let mut validation = jsonwebtoken::Validation::new(jsonwebtoken::Algorithm::HS256);
    validation.validate_exp = false;
    validation.required_spec_claims.clear();
    let key = jsonwebtoken::DecodingKey::from_secret(secret);
    let payload = jsonwebtoken::decode::<serde_json::Map<String, serde_json::Value>>(
        token,
        &key,
        &validation,
    )?.claims;
    Ok(DecodedClaims {
        user_id: payload.get("user_id").and_then(serde_json::Value::as_i64),
        company_id: payload.get("company_id").and_then(serde_json::Value::as_i64),
        role_id: payload.get("role_id").and_then(serde_json::Value::as_i64),
        exp: payload.get("exp").and_then(serde_json::Value::as_i64),
    })
}

/// Whether `value` can be an identifier.
pub open spec fn fits_i32(value: i64) -> bool {
    i32::MIN <= value <= i32::MAX
}

/// The session that a decoded payload describes: all four claims present and
/// the three identifiers within range.
pub open spec fn session_of(decoded: DecodedClaims) -> Option<JwtClaims> {
    match (decoded.user_id, decoded.company_id, decoded.role_id, decoded.exp) {
        (Some(user_id), Some(company_id), Some(role_id), Some(exp)) => {
            if fits_i32(user_id) && fits_i32(company_id) && fits_i32(role_id) {
                Some(
                    JwtClaims {
                        user_id: user_id as i32,
                        company_id: company_id as i32,
                        role_id: role_id as i32,
                        exp,
                    },
                )
            } else {
                None
            }
        },
        _ => None,
    }
}

/// The result of validating a token at the instant `now`, given what the
/// decoder read from it.  A token is accepted when it decodes to a session
/// that has not expired; a session is live up to and including the second
/// `exp`.  Every other token is refused in the same way.
pub open spec fn validation_outcome(decoded: Option<DecodedClaims>, now: i64) -> Result<
    JwtClaims,
    AuthError,
> {
    match decoded {
        Some(d) => match session_of(d) {
            Some(claims) => if claims.exp >= now {
                Ok(claims)
            } else {
                Err(AuthError::WrongCredentials)
            },
            None => Err(AuthError::WrongCredentials),
        },
        None => Err(AuthError::WrongCredentials),
    }
}

/// What was decoded, with the decoder's error dropped.
pub open spec fn decoded_part(
    decoded: Result<DecodedClaims, jsonwebtoken::errors::Error>,
) -> Option<DecodedClaims> {
    match decoded {
        Ok(d) => Some(d),
        Err(_) => None,
    }
}

fn narrow(value: Option<i64>) -> (r: Option<i32>)
    ensures
        r == match value {
            Some(v) => if fits_i32(v) {
                Some(v as i32)
            } else {
                None
            },
            None => None,
        },
{
    match value {
        Some(v) => if -2147483648 <= v && v <= 2147483647 {
            Some(v as i32)
        } else {
            None
        },
        None => None,
    }
}

/// Decides whether a decoded token is a live session at the instant `now`.
pub fn claims_from_decoded(
    decoded: Result<DecodedClaims, jsonwebtoken::errors::Error>,
    now: i64,
) -> (r: Result<JwtClaims, AuthError>)
    ensures
        r == validation_outcome(decoded_part(decoded), now),
{
    let found = match decoded {
        Ok(found) => found,
        Err(_) => return Err(AuthError::WrongCredentials),
    };
    match (narrow(found.user_id), narrow(found.company_id), narrow(found.role_id), found.exp) {
        (Some(user_id), Some(company_id), Some(role_id), Some(exp)) => {
            if exp >= now {
                Ok(JwtClaims { user_id, company_id, role_id, exp })
            } else {
                Err(AuthError::WrongCredentials)
            }
        },
        _ => Err(AuthError::WrongCredentials),
    }
}

/// Tamper detection.  Take a token in signed form and change one character of
/// it.  If the changed token is in signed form too, then the change lies in
/// the signed message, before the second `.`, and the changed message has the
/// very signature of the message it was made from.  So a changed token is
/// refused unless two messages share one signature under the secret; and a
/// change to the signature, or to either `.`, is always refused.
pub proof fn lemma_tampering_needs_a_collision(
    token: Seq<char>,
    tampered: Seq<char>,
    secret: Seq<u8>,
    i: int,
)
    requires
        signed_form(token, secret),
        signed_form(tampered, secret),
        tampered.len() == token.len(),
        0 <= i < token.len(),
        tampered[i] != token[i],
        forall|k: int| 0 <= k < token.len() && k != i ==> tampered[k] == token[k],
    ensures
        exists|a: int, b: int| #[trigger]
            three_parts(token, a, b) && three_parts(tampered, a, b) && i < b && token.take(b)
                != tampered.take(b) && hs256_signature(token.take(b), secret) == hs256_signature(
                tampered.take(b),
                secret,
            ),
{
    let (a, b) = choose|a: int, b: int| #[trigger]
        three_parts(token, a, b) && token.skip(b + 1) == hs256_signature(token.take(b), secret);
    let (c, d) = choose|c: int, d: int| #[trigger]
        three_parts(tampered, c, d) && tampered.skip(d + 1) == hs256_signature(
            tampered.take(d),
            secret,
        );
    // The two tokens hold their dots at the same places.
    if i != a {
        assert(tampered[a] == '.');
    }
    if i != b {
        assert(tampered[b] == '.');
    }
    if i != c {
        assert(token[c] == '.');
    }
    if i != d {
        assert(token[d] == '.');
    }
    assert(a == c && b == d);
    // A change behind the second dot would leave the message as it was, and
    // with it the signature.
    assert(i < b) by {
        if i > b {
            assert(token.take(b) =~= tampered.take(b));
            assert(tampered.skip(b + 1)[i - b - 1] == tampered[i]);
        }
    }
    assert(token.take(b)[i] != tampered.take(b)[i]);
    assert(token.skip(b + 1) =~= tampered.skip(b + 1));
}

/// Round trip.  Where the decoder reports the claims that were signed, the
/// token validates to those very claims at every instant up to and including
/// their `exp`.
pub proof fn lemma_round_trip(claims: JwtClaims, now: i64)
    requires
        now <= claims.exp,
    ensures
        session_of(reported(claims)) == Some(claims),
        validation_outcome(Some(reported(claims)), now) == Ok::<JwtClaims, AuthError>(claims),
{
}

/// A token whose session expired one second ago is refused, and one whose
/// session expires in one second is accepted.  In general a decoded session
/// is accepted exactly when `now` is not past its `exp`.
pub proof fn lemma_expiry_boundary(claims: JwtClaims, now: i64)
    ensures
        claims.exp == now - 1 ==> validation_outcome(Some(reported(claims)), now) == Err::<
            JwtClaims,
            AuthError,
        >(AuthError::WrongCredentials),
        claims.exp == now + 1 ==> validation_outcome(Some(reported(claims)), now) == Ok::<
            JwtClaims,
            AuthError,
        >(claims),
        validation_outcome(Some(reported(claims)), now) is Ok <==> now <= claims.exp,
{
}

} // verus!
