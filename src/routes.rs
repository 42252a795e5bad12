use vstd::prelude::*;
use crate::auth::AuthService;
use crate::clock::now_timestamp;
use crate::tokens::uuid_v4_text;
use crate::credentials::{generate_salt, salt_ok, MAX_PASSWORD_CHARS};
use crate::errors::AppError;
use crate::laws::lemma_registered_user_can_log_in;
use crate::user::{CreateUserDto, ForgotPasswordDto, LoginDto, ResetPasswordDto, TokenResponse, User};

verus! {

/// The request handlers that the service exposes, mounted under `/api`.
#[derive(Debug, Clone, Copy, PartialEq, Eq, Structural)]
pub enum Endpoint {
    Register,
    Login,
    ForgotPassword,
    ResetPassword,
}

impl Endpoint {
    pub open spec fn spec_path(self) -> Seq<char> {
        match self {
            Endpoint::Register => "/register"@,
            Endpoint::Login => "/login"@,
            Endpoint::ForgotPassword => "/forgot-password"@,
            Endpoint::ResetPassword => "/reset-password"@,
        }
    }

    /// The path of the endpoint, relative to the mount point.
    pub fn path(&self) -> (r: &'static str)
        ensures
            r@ == self.spec_path(),
    {
        match self {
            Endpoint::Register => "/register",
            Endpoint::Login => "/login",
            Endpoint::ForgotPassword => "/forgot-password",
            Endpoint::ResetPassword => "/reset-password",
        }
    }
}

/// Every endpoint, each once, in the order they are mounted.
pub fn get_routes() -> (r: Vec<Endpoint>)
    ensures
        r@ == seq![
            Endpoint::Register,
            Endpoint::Login,
            Endpoint::ForgotPassword,
            Endpoint::ResetPassword,
        ],
{
    vec![Endpoint::Register, Endpoint::Login, Endpoint::ForgotPassword, Endpoint::ResetPassword]
}

/// Registers the account and logs it in at once, so that the caller gets a
/// session token without a second request.
pub fn register(dto: CreateUserDto, auth_service: &mut AuthService) -> (r: Result<
    TokenResponse,
    AppError,
>)
    requires
        old(auth_service).wf(),
    ensures
        final(auth_service).wf(),
        exists|now: i64, salt: Seq<char>, reg: Result<User, AppError>|
            {
                &&& salt_ok(salt)
                &&& AuthService::register_outcome(
                    *old(auth_service),
                    *final(auth_service),
                    dto,
                    salt,
                    now,
                    reg,
                )
                &&& (reg is Ok <==> r is Ok)
                &&& (r is Err ==> reg is Err && r->Err_0 == reg->Err_0)
            },
        old(auth_service).has_user(dto.username@) ==> r == Err::<TokenResponse, AppError>(
            AppError::UserAlreadyExists,
        ),
        !old(auth_service).has_user(dto.username@) && old(auth_service).users@.len() < i32::MAX
            && dto.password@.len() <= MAX_PASSWORD_CHARS ==> r is Ok,
        r is Ok ==> uuid_v4_text(r->Ok_0.token@) && final(auth_service).credentials_ok(
            dto.username@,
            dto.password@,
        ),
{
    let credentials = LoginDto { username: dto.username.clone(), password: dto.password.clone() };
    let ghost pre = *auth_service;
    let ghost d = dto;
    let now = now_timestamp();
    let salt = generate_salt();
    let reg = auth_service.register_with_salt(dto, &salt, now);
    let ghost reg_copy = reg;
    match reg {
        Ok(_) => {},
        Err(e) => {
            assert(AuthService::register_outcome(pre, *auth_service, d, salt@, now, reg_copy));
            return Err(e);
        },
    }
    proof {
        lemma_registered_user_can_log_in(pre, *auth_service, d, salt@, now, reg_copy);
    }
    let r = auth_service.login(credentials);
    assert(AuthService::register_outcome(pre, *auth_service, d, salt@, now, reg_copy));
    r
}

pub fn login(dto: LoginDto, auth_service: &AuthService) -> (r: Result<TokenResponse, AppError>)
    requires
        auth_service.wf(),
    ensures
        match r {
            Ok(t) => auth_service.credentials_ok(dto.username@, dto.password@) && uuid_v4_text(
                t.token@,
            ),
            Err(e) => !auth_service.credentials_ok(dto.username@, dto.password@) && e
                == AppError::InvalidCredentials,
        },
{
    auth_service.login(dto)
}

/// Stores a reset token for the user and returns it for delivery.
pub fn forgot_password(dto: ForgotPasswordDto, auth_service: &mut AuthService) -> (r: Result<
    String,
    AppError,
>)
    requires
        old(auth_service).wf(),
    ensures
        final(auth_service).wf(),
        old(auth_service).has_user(dto.username@) ==> r is Ok || r->Err_0 is DatabaseError,
        exists|now: i64|
            AuthService::forgot_outcome(
                *old(auth_service),
                *final(auth_service),
                dto.username@,
                now,
                r,
            ),
{
    auth_service.forgot_password(dto.username)
}

pub fn reset_password(dto: ResetPasswordDto, auth_service: &mut AuthService) -> (r: Result<
    (),
    AppError,
>)
    requires
        old(auth_service).wf(),
    ensures
        final(auth_service).wf(),
        exists|now: i64, salt: Seq<char>|
            salt_ok(salt) && AuthService::reset_outcome(
                *old(auth_service),
                *final(auth_service),
                dto.token@,
                dto.new_password@,
                salt,
                now,
                r,
            ),
{
    auth_service.reset_password(dto.token, dto.new_password)
}

} // verus!
