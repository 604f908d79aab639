//! Session claims, the key they are signed with, and the reasons a credential
//! is refused.

use crate::errors::{custom, AppError, AppErrorView, AppResult, ErrorResponse};
use crate::model::{Module, PrivilegeType, Role, User};
use crate::privilege::{role_grants, rows_grant};
use crate::token::{
    claims_from_decoded, decode_hs256, encode_hs256, hs256_claims, hs256_token, reported,
    signed_form, validation_outcome, SESSION_SECONDS,
};
use vstd::prelude::*;
use vstd::slice::slice_to_vec;
use vstd::string::{StrSliceExecFns, StringExecFns};

verus! {

/// The claims of a session: who the caller is, which company the caller
/// belongs to, under which role, and the second at which the session ends.
#[derive(Clone, Copy, Debug, PartialEq, Eq, Structural)]
pub struct JwtClaims {
    pub user_id: i32,
    pub company_id: i32,
    pub role_id: i32,
    pub exp: i64,
}

/// Why a credential was refused.
#[derive(Clone, Copy, Debug, PartialEq, Eq, Structural)]
pub enum AuthError {
    WrongCredentials,
    MissingCredentials,
    TokenCreation,
    InvalidToken,
}

impl AuthError {
    /// The status code that the refusal is answered with.
    pub open spec fn status(self) -> u16 {
        match self {
            AuthError::WrongCredentials => 400,
            AuthError::MissingCredentials => 401,
            AuthError::TokenCreation => 500,
            AuthError::InvalidToken => 400,
        }
    }

    /// The message that the refusal is answered with.
    pub open spec fn message(self) -> Seq<char> {
        match self {
            AuthError::WrongCredentials => "Wrong credentials"@,
            AuthError::MissingCredentials => "Missing credentials"@,
            AuthError::TokenCreation => "Token creation error"@,
            AuthError::InvalidToken => "Invalid token"@,
        }
    }

    /// The refusal as a rejection with its status code and message.
    pub fn into_app_error(self) -> (e: AppError)
        ensures
            e@ == custom(self.status(), self.message()),
            e@.wf(),
    {
        let (status_code, text): (u16, &str) = match self {
            AuthError::WrongCredentials => (400, "Wrong credentials"),
            AuthError::MissingCredentials => (401, "Missing credentials"),
            AuthError::TokenCreation => (500, "Token creation error"),
            AuthError::InvalidToken => (400, "Invalid token"),
        };
        AppError::Custom { status_code, error: text.to_owned() }
    }

    /// Turns the refusal into the response that is sent for it.
    pub fn into_response(self) -> (r: ErrorResponse)
        ensures
            r.carries(self.status(), self.message()),
            r.body.wf(),
    {
        self.into_app_error().into_response()
    }
}

/// The signing secret of the process.  It is set once and never changes.
pub struct Keys {
    secret: Vec<u8>,
}

impl View for Keys {
    type V = Seq<u8>;

    closed spec fn view(&self) -> Seq<u8> {
        self.secret@
    }
}

impl Keys {
    /// Keys over `secret`.
    pub fn new(secret: &[u8]) -> (keys: Keys)
        ensures
            keys@ == secret@,
    {
        Keys { secret: slice_to_vec(secret) }
    }

    /// Signs `claims` into a token.
    ///
    /// A token that comes out is the one the secret gives for the claims,
    /// and it validates under the same keys, to the same claims, at every
    /// instant up to and including `claims.exp`.
    pub fn sign(&self, claims: &JwtClaims) -> (r: Result<String, jsonwebtoken::errors::Error>)
        ensures
            match r {
                Ok(token) => {
                    &&& signed(*claims, self@) == Some(token@)
                    &&& hs256_claims(token@, self@) == Some(reported(*claims))
                    &&& forall|now: i64|
                        now <= claims.exp ==> #[trigger] validation_outcome(
                            hs256_claims(token@, self@),
                            now,
                        ) == Ok::<JwtClaims, AuthError>(*claims)
                },
                Err(_) => signed(*claims, self@) is None,
            },
    {
        encode_hs256(claims, self.secret.as_slice())
    }

    /// Validates `token` at the instant `now`.
    ///
    /// The token is accepted when its form and signature are right under
    /// these keys, its payload holds the four claims, and `now` is not past
    /// `exp`.  Every other token is refused with `WrongCredentials`.  A token
    /// that is accepted is in signed form under these keys.
    pub fn verify(&self, token: &str, now: i64) -> (r: Result<JwtClaims, AuthError>)
        ensures
            r == validation_outcome(hs256_claims(token@, self@), now),
            r is Ok ==> signed_form(token@, self@),
    {
        claims_from_decoded(decode_hs256(token, self.secret.as_slice()), now)
    }
}

/// The token that the secret gives for `claims`, where it gives one.
pub open spec fn signed(claims: JwtClaims, secret: Seq<u8>) -> Option<Seq<char>> {
    hs256_token(claims.user_id, claims.company_id, claims.role_id, claims.exp, secret)
}

/// A character that the text of a header value may hold: a tab or a visible
/// ASCII character, the space included.
pub open spec fn header_char(c: char) -> bool {
    c == '\t' || (' ' <= c <= '~')
}

/// The token that an `Authorization` header value carries under the `Bearer`
/// scheme: the value is `Bearer`, one space and the token, and holds only
/// characters that a header's text may hold.  The token may be empty.
pub open spec fn bearer_token(value: Seq<char>) -> Option<Seq<char>> {
    if value.len() >= 7 && value.take(7) == "Bearer "@ && (forall|i: int|
        0 <= i < value.len() ==> header_char(#[trigger] value[i])) {
        Some(value.skip(7))
    } else {
        None
    }
}

/// Reads the token out of an `Authorization` header value.
pub fn parse_bearer(value: &str) -> (r: Option<&str>)
    ensures
        match r {
            Some(token) => bearer_token(value@) == Some(token@),
            None => bearer_token(value@) is None,
        },
{
    proof {
        reveal_strlit("Bearer ");
    }
    if !value.is_ascii() {
        return None;
    }
    let bytes = value.as_bytes();
    proof {
        vstd::string::is_ascii_spec_bytes(value);
    }
    let n = bytes.len();
    if n < 7 {
        return None;
    }
    // The bytes of `Bearer` and a space.
    if !(bytes[0] == 66 && bytes[1] == 101 && bytes[2] == 97 && bytes[3] == 114 && bytes[4] == 101
        && bytes[5] == 114 && bytes[6] == 32) {
        assert(value@.take(7) != "Bearer "@) by {
            if value@.take(7) == "Bearer "@ {
                assert(value@.take(7)[0] == 'B');
                assert(value@.take(7)[1] == 'e');
                assert(value@.take(7)[2] == 'a');
                assert(value@.take(7)[3] == 'r');
                assert(value@.take(7)[4] == 'e');
                assert(value@.take(7)[5] == 'r');
                assert(value@.take(7)[6] == ' ');
            }
        }
        return None;
    }
    assert(value@.take(7) =~= "Bearer "@);
    let mut i: usize = 0;
    while i < n
        invariant
            i <= n,
            n == bytes@.len(),
            n == value@.len(),
            forall|k: int| 0 <= k < n ==> bytes@[k] == (#[trigger] value@[k]) as u8,
            forall|k: int| 0 <= k < n ==> '\0' <= (#[trigger] value@[k]) <= '\u{7f}',
            forall|k: int| 0 <= k < i ==> header_char(#[trigger] value@[k]),
        decreases n - i,
    {
        let b: u8 = bytes[i];
        // A tab, or anything from the space to `~`.
        if !(b == 9 || (32 <= b && b <= 126)) {
            assert(!header_char(value@[i as int]));
            return None;
        }
        i += 1;
    }
    let token = value.substring_ascii(7, n);
    Some(token)
}

/// The result of authenticating a request at the instant `now`, from the
/// text of its `Authorization` header, if it has one.  The three refusals
/// stay apart: no header, a header that is no bearer credential, and a
/// bearer token that does not validate.
pub open spec fn authentication(
    authorization: Option<Seq<char>>,
    secret: Seq<u8>,
    now: i64,
) -> Result<JwtClaims, AuthError> {
    match authorization {
        None => Err(AuthError::MissingCredentials),
        Some(value) => match bearer_token(value) {
            None => Err(AuthError::InvalidToken),
            Some(token) => validation_outcome(hs256_claims(token, secret), now),
        },
    }
}

/// The text of an optional header value.
pub open spec fn header_text(authorization: Option<&str>) -> Option<Seq<char>> {
    match authorization {
        Some(value) => Some(value@),
        None => None,
    }
}

/// The text that answers a request the role does not allow.
pub open spec fn not_allowed(privilege: PrivilegeType, module: Module) -> Seq<char> {
    "you are not allowed to "@ + privilege.name() + " in "@ + module.name()
}

impl JwtClaims {
    /// The claims of a session that `user` opens at the instant `now`: the
    /// user's identifiers, and an end fourteen days later to the second.
    pub fn issue(user: &User, now: i64) -> (claims: JwtClaims)
        requires
            now + SESSION_SECONDS <= i64::MAX,
        ensures
            claims == (JwtClaims {
                user_id: user.id,
                company_id: user.company_id,
                role_id: user.role_id,
                exp: (now + SESSION_SECONDS) as i64,
            }),
    {
        JwtClaims {
            user_id: user.id,
            company_id: user.company_id,
            role_id: user.role_id,
            exp: now + SESSION_SECONDS,
        }
    }

    /// Authenticates a request at the instant `now` from the text of its
    /// `Authorization` header, if it has one.
    pub fn from_request_parts(authorization: Option<&str>, keys: &Keys, now: i64) -> (r: Result<
        JwtClaims,
        AuthError,
    >)
        ensures
            r == authentication(header_text(authorization), keys@, now),
    {
        match authorization {
            None => Err(AuthError::MissingCredentials),
            Some(value) => match parse_bearer(value) {
                None => Err(AuthError::InvalidToken),
                Some(token) => keys.verify(token, now),
            },
        }
    }

    /// Decides whether the session may act at the level `privilege` on
    /// `module`, given the role that was found under the session's role id.
    ///
    /// The request is allowed when the role was found, its rows were loaded,
    /// and the first row for the module holds `privilege` or a higher level.
    /// Every other request is refused with one and the same message, whether
    /// the role or the row is missing.
    pub fn check_module_privilige(
        &self,
        role: &Option<Role>,
        module: Module,
        privilege: PrivilegeType,
    ) -> (r: AppResult<()>)
        ensures
            role_grants(self.role_id, *role, module, privilege) ==> r is Ok,
            !role_grants(self.role_id, *role, module, privilege) ==> (r matches Err(e) && e@
                == AppErrorView::Other(not_allowed(privilege, module))),
    {
        let allowed = match role {
            Some(found) => found.id == self.role_id && match &found.role_privileges {
                Some(rows) => rows_grant(rows, module, privilege),
                None => false,
            },
            None => false,
        };
        if allowed {
            Ok(())
        } else {
            let mut text = String::from_str("you are not allowed to ");
            text.append(privilege.to_str());
            text.append(" in ");
            text.append(module.to_str());
            Err(AppError::Other(text))
        }
    }
}

} // verus!
