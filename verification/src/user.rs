//! Registration, login and profile requests: what each one decides.
//!
//! Storage is not reached from here.  A caller looks records up and creates
//! them; these functions say what to look up, what to create, and what to
//! answer.

use crate::digest::{digest_of, password_digest, same_digest};
use crate::errors::{answers, custom, AppError, AppErrorView, AppResult, CommonResponse};
use crate::guard::{guard_scoped, scoped_outcome, Owned};
use crate::model::{Company, IsActive, Role, User};
use crate::token::{hs256_claims, validation_outcome, SESSION_SECONDS};
use crate::utils::{signed, AuthError, JwtClaims, Keys};
use vstd::prelude::*;

verus! {

/// What a new user sends to register.
#[derive(Clone, Debug, PartialEq, Eq)]
pub struct UserRegisterInfo {
    pub company_code: String,
    pub username: String,
    pub password: String,
    pub full_name: String,
    pub telephone: String,
    pub address: Option<String>,
    pub email: String,
    pub customize_fileds_1: Option<String>,
    pub customize_fileds_2: Option<String>,
    pub customize_fileds_3: Option<String>,
    pub customize_fileds_4: Option<String>,
    pub customize_fileds_5: Option<String>,
}

/// A role to create.
#[derive(Debug, PartialEq, Eq)]
pub struct NewRole {
    pub role_name: String,
    pub company_id: i32,
}

/// A user to create.  `password` holds the digest of the password.
#[derive(Debug, PartialEq, Eq)]
pub struct NewUser {
    pub company_code: String,
    pub is_active: IsActive,
    pub username: String,
    pub password: String,
    pub full_name: String,
    pub telephone: String,
    pub email: String,
    pub role_id: i32,
    pub customize_fileds_1: Option<String>,
    pub customize_fileds_2: Option<String>,
    pub customize_fileds_3: Option<String>,
    pub customize_fileds_4: Option<String>,
    pub customize_fileds_5: Option<String>,
}

/// How far a registration has come: what storage answered last.
#[derive(Debug, PartialEq, Eq)]
pub enum RegisterProgress {
    /// Nothing was asked of storage yet.
    Start,
    /// The company was looked up by its code.
    CompanyLookedUp(Option<Company>),
    /// The first role of the company `company_id` was looked up.
    RoleLookedUp { company_id: i32, role: Option<Role> },
    /// The role that was asked for has been created.
    RoleCreated(Role),
    /// The user that was asked for has been created, under this id.
    UserCreated(i32),
}

/// What a registration asks of its caller next.
#[derive(Debug, PartialEq, Eq)]
pub enum RegisterAction {
    /// Look the company up by this code; report `CompanyLookedUp`.
    FindCompany { company_code: String },
    /// Look up the first role of this company; report `RoleLookedUp` with
    /// the same company id.
    FindFirstRole { company_id: i32 },
    /// Create this role; report `RoleCreated`.
    CreateRole(NewRole),
    /// Create this user; report `UserCreated`.
    CreateUser(NewUser),
    /// The registration is over, with this result.
    Finish(AppResult<()>),
}

/// `new` is the user that `ur` registers under the role `role_id`: active,
/// with the digest of the password in place of the password, and every other
/// field as it was sent.  The address is not stored.
pub open spec fn registers(new: NewUser, ur: UserRegisterInfo, role_id: i32) -> bool {
    &&& new.company_code == ur.company_code
    &&& new.is_active == IsActive::Yes
    &&& new.username == ur.username
    &&& new.password@ == digest_of(ur.password@)
    &&& new.full_name == ur.full_name
    &&& new.telephone == ur.telephone
    &&& new.email == ur.email
    &&& new.role_id == role_id
    &&& new.customize_fileds_1 == ur.customize_fileds_1
    &&& new.customize_fileds_2 == ur.customize_fileds_2
    &&& new.customize_fileds_3 == ur.customize_fileds_3
    &&& new.customize_fileds_4 == ur.customize_fileds_4
    &&& new.customize_fileds_5 == ur.customize_fileds_5
}

/// `action` is the step that follows `progress` in the registration of `ur`.
///
/// The company is looked up first, and a registration for an unknown company
/// ends there.  The user gets the first role of the company; a company
/// without a role gets one named `admin` first.  Then the user is created,
/// and the registration ends well.
pub open spec fn register_step(
    ur: UserRegisterInfo,
    progress: RegisterProgress,
    action: RegisterAction,
) -> bool {
    match progress {
        RegisterProgress::Start => action matches RegisterAction::FindCompany { company_code }
            && company_code == ur.company_code,
        RegisterProgress::CompanyLookedUp(None) => action matches RegisterAction::Finish(Err(e))
            && e@ == custom(404, "company not found"@),
        RegisterProgress::CompanyLookedUp(Some(company)) => action
            == (RegisterAction::FindFirstRole { company_id: company.id }),
        RegisterProgress::RoleLookedUp { company_id, role: None } => action
            matches RegisterAction::CreateRole(role) && role.company_id == company_id
            && role.role_name@ == "admin"@,
        RegisterProgress::RoleLookedUp { company_id, role: Some(role) } => action
            matches RegisterAction::CreateUser(new) && registers(new, ur, role.id),
        RegisterProgress::RoleCreated(role) => action matches RegisterAction::CreateUser(new)
            && registers(new, ur, role.id),
        RegisterProgress::UserCreated(_) => action == RegisterAction::Finish(Ok(())),
    }
}

fn new_user(ur: &UserRegisterInfo, role_id: i32) -> (new: NewUser)
    ensures
        registers(new, *ur, role_id),
{
    NewUser {
        company_code: ur.company_code.clone(),
        is_active: IsActive::Yes,
        username: ur.username.clone(),
        password: password_digest(ur.password.as_str()),
        full_name: ur.full_name.clone(),
        telephone: ur.telephone.clone(),
        email: ur.email.clone(),
        role_id,
        customize_fileds_1: copy_of(&ur.customize_fileds_1),
        customize_fileds_2: copy_of(&ur.customize_fileds_2),
        customize_fileds_3: copy_of(&ur.customize_fileds_3),
        customize_fileds_4: copy_of(&ur.customize_fileds_4),
        customize_fileds_5: copy_of(&ur.customize_fileds_5),
    }
}

fn copy_of(text: &Option<String>) -> (r: Option<String>)
    ensures
        r == *text,
{
    match text {
        Some(t) => Some(t.clone()),
        None => None,
    }
}

/// Takes the registration of `ur` one step further: given what storage
/// answered last, says what to do next.
pub fn user_register(ur: &UserRegisterInfo, progress: RegisterProgress) -> (action: RegisterAction)
    ensures
        register_step(*ur, progress, action),
{
    match progress {
        RegisterProgress::Start => RegisterAction::FindCompany {
            company_code: ur.company_code.clone(),
        },
        RegisterProgress::CompanyLookedUp(None) => RegisterAction::Finish(
            Err(AppError::Custom { status_code: 404, error: "company not found".to_owned() }),
        ),
        RegisterProgress::CompanyLookedUp(Some(company)) => RegisterAction::FindFirstRole {
            company_id: company.id,
        },
        RegisterProgress::RoleLookedUp { company_id, role: None } => RegisterAction::CreateRole(
            NewRole { role_name: "admin".to_owned(), company_id },
        ),
        RegisterProgress::RoleLookedUp { company_id: _, role: Some(role) } => {
            RegisterAction::CreateUser(new_user(ur, role.id))
        },
        RegisterProgress::RoleCreated(role) => RegisterAction::CreateUser(new_user(ur, role.id)),
        RegisterProgress::UserCreated(_) => RegisterAction::Finish(Ok(())),
    }
}

/// What a user sends to log in.
#[derive(Clone, Debug, PartialEq, Eq)]
pub struct UserLoginInfo {
    pub username: String,
    pub password: String,
}

/// What a login answers: the user's id and the session token.
#[derive(Debug, PartialEq, Eq)]
pub struct LoginOutInfo {
    pub id: i32,
    pub token: String,
}

/// The claims of the session that `user` opens at the instant `now`.
pub open spec fn session_for(user: User, now: i64) -> JwtClaims {
    JwtClaims {
        user_id: user.id,
        company_id: user.company_id,
        role_id: user.role_id,
        exp: (now + SESSION_SECONDS) as i64,
    }
}

/// The result of a login with `password` at the instant `now`, given the
/// user that was found under the name: the user's id and the token, or the
/// rejection.
///
/// An unknown user, an inactive user and a wrong password are told apart.
/// The password is right when its digest is the stored one.
pub open spec fn login_outcome(
    password: Seq<char>,
    found: Option<User>,
    now: i64,
    secret: Seq<u8>,
) -> Result<(i32, Seq<char>), AppErrorView> {
    match found {
        None => Err(custom(400, "user does not exist"@)),
        Some(user) => if user.is_active != IsActive::Yes {
            Err(custom(403, "user is not active"@))
        } else if digest_of(password) != user.password@ {
            Err(custom(403, "wrong password"@))
        } else {
            match signed(session_for(user, now), secret) {
                Some(token) => Ok((user.id, token)),
                None => Err(AppErrorView::TokenError),
            }
        },
    }
}

/// `r` is the answer to a login whose result is `expected`.
pub open spec fn answers_login(
    r: AppResult<CommonResponse<LoginOutInfo>>,
    expected: Result<(i32, Seq<char>), AppErrorView>,
) -> bool {
    match expected {
        Ok((id, token)) => {
            &&& r matches Ok(envelope)
            &&& envelope.error is None
            &&& envelope.data matches Some(out)
            &&& out.id == id
            &&& out.token@ == token
        },
        Err(rejection) => r matches Err(e) && e@ == rejection,
    }
}

/// The result of signing, with the signer's error dropped.
pub open spec fn token_text(
    token: Result<String, jsonwebtoken::errors::Error>,
) -> Option<Seq<char>> {
    match token {
        Ok(t) => Some(t@),
        Err(_) => None,
    }
}

/// Answers a login of the user `id`, given the result of signing the
/// session: the token goes out with the id, and a signing failure is
/// reported as `TokenError`.
pub fn login_response(id: i32, token: Result<String, jsonwebtoken::errors::Error>) -> (r: AppResult<
    CommonResponse<LoginOutInfo>,
>)
    ensures
        answers_login(
            r,
            match token_text(token) {
                Some(t) => Ok((id, t)),
                None => Err(AppErrorView::TokenError),
            },
        ),
{
    match token {
        Ok(token) => CommonResponse::json_data(LoginOutInfo { id, token }),
        Err(_) => Err(AppError::TokenError),
    }
}

/// Answers a login at the instant `now`, given the user that was found under
/// `ul.username`.
///
/// A token that goes out validates under the same keys, at every instant up
/// to and including fourteen days after `now`, to the claims of the session:
/// the user's id, company and role, and that end.
pub fn user_login(ul: &UserLoginInfo, found: Option<User>, now: i64, keys: &Keys) -> (r: AppResult<
    CommonResponse<LoginOutInfo>,
>)
    requires
        now + SESSION_SECONDS <= i64::MAX,
    ensures
        answers_login(r, login_outcome(ul.password@, found, now, keys@)),
        r matches Ok(envelope) ==> ({
            &&& envelope.data matches Some(out)
            &&& found matches Some(user)
            &&& forall|at: i64|
                at <= now + SESSION_SECONDS ==> #[trigger] validation_outcome(
                    hs256_claims(out.token@, keys@),
                    at,
                ) == Ok::<JwtClaims, AuthError>(session_for(user, now))
        }),
{
    let encryped_password = password_digest(ul.password.as_str());
    match found {
        Some(user) => match user.is_active {
            IsActive::Yes => {
                if !same_digest(encryped_password.as_str(), user.password.as_str()) {
                    Err(AppError::Custom { status_code: 403, error: "wrong password".to_owned() })
                } else {
                    let claim = JwtClaims::issue(&user, now);
                    login_response(user.id, keys.sign(&claim))
                }
            },
            _ => Err(AppError::Custom { status_code: 403, error: "user is not active".to_owned() }),
        },
        _ => Err(AppError::Custom { status_code: 400, error: "user does not exist".to_owned() }),
    }
}

/// Answers a request for the details of one user of the session's company,
/// given what was found under the id.  A user of another company is as
/// absent as one that does not exist.
pub fn user_details<T>(found: Option<Owned<T>>, c: &JwtClaims) -> (r: AppResult<CommonResponse<T>>)
    ensures
        answers(r, scoped_outcome(found, *c, "user not found"@)),
{
    guard_scoped(found, c, "user not found")
}

/// What a user sends to change a profile.
#[derive(Clone, Debug, PartialEq, Eq)]
pub struct UpdateUserInfo {
    pub full_name: Option<String>,
    pub address: Option<String>,
    pub password: Option<String>,
    pub telephone: Option<String>,
    pub customize_fileds_1: Option<String>,
    pub customize_fileds_2: Option<String>,
    pub customize_fileds_3: Option<String>,
    pub customize_fileds_4: Option<String>,
    pub customize_fileds_5: Option<String>,
    pub role_id: Option<i32>,
}

/// An update of one user: the user's id and what to change.  A field that
/// is absent from `changes` stays as it is stored.
#[derive(Debug, PartialEq, Eq)]
pub struct UserUpdate {
    pub user_id: i32,
    pub changes: UpdateUserInfo,
}

/// The change that changes nothing.
pub open spec fn no_change() -> UpdateUserInfo {
    UpdateUserInfo {
        full_name: None,
        address: None,
        password: None,
        telephone: None,
        customize_fileds_1: None,
        customize_fileds_2: None,
        customize_fileds_3: None,
        customize_fileds_4: None,
        customize_fileds_5: None,
        role_id: None,
    }
}

/// The update that a user makes to the user's own profile.  The profile is
/// read back as it is stored: no field of `payload` is applied.
pub fn update_user(id: i32, c: &JwtClaims, payload: UpdateUserInfo) -> (update: UserUpdate)
    requires
        id == c.user_id,
    ensures
        update.user_id == id,
        update.changes == no_change(),
{
    let _ = payload;
    UserUpdate {
        user_id: id,
        changes: UpdateUserInfo {
            full_name: None,
            address: None,
            password: None,
            telephone: None,
            customize_fileds_1: None,
            customize_fileds_2: None,
            customize_fileds_3: None,
            customize_fileds_4: None,
            customize_fileds_5: None,
            role_id: None,
        },
    }
}

/// What a company sends to register.
#[derive(Clone, Debug, PartialEq, Eq)]
pub struct CompanyRegisterInfo {
    pub company_code: String,
    pub company_name: String,
    pub company_bid: String,
    pub email: String,
    pub telephone: String,
    pub address: Option<String>,
    pub customize_fileds_1: Option<String>,
    pub customize_fileds_2: Option<String>,
    pub customize_fileds_3: Option<String>,
    pub customize_fileds_4: Option<String>,
    pub customize_fileds_5: Option<String>,
}

/// A company to create.  `expiration_date` is in seconds since the epoch.
#[derive(Debug, PartialEq, Eq)]
pub struct NewCompany {
    pub company_code: String,
    pub company_name: String,
    pub email: String,
    pub telephone: String,
    pub company_bid: String,
    pub expiration_date: i64,
}

/// `new` is the company that `cr` registers, to expire at `expiration_date`.
pub open spec fn founds(new: NewCompany, cr: CompanyRegisterInfo, expiration_date: i64) -> bool {
    &&& new.company_code == cr.company_code
    &&& new.company_name == cr.company_name
    &&& new.email == cr.email
    &&& new.telephone == cr.telephone
    &&& new.company_bid == cr.company_bid
    &&& new.expiration_date == expiration_date
}

/// Decides the registration of a company, given what was found under its
/// code: a code that is taken is refused, and a free one gives the company
/// to create.
pub fn company_register(
    cr: CompanyRegisterInfo,
    existing: Option<Company>,
    expiration_date: i64,
) -> (r: AppResult<NewCompany>)
    ensures
        match existing {
            Some(_) => r matches Err(e) && e@ == custom(400, "duplicate company code"@),
            None => r matches Ok(new) && founds(new, cr, expiration_date),
        },
{
    if let Some(_) = existing {
        Err(AppError::Custom { status_code: 400, error: "duplicate company code".to_owned() })
    } else {
        Ok(
            NewCompany {
                company_code: cr.company_code,
                company_name: cr.company_name,
                email: cr.email,
                telephone: cr.telephone,
                company_bid: cr.company_bid,
                expiration_date,
            },
        )
    }
}

} // verus!
