use vstd::prelude::*;
use crate::auth::AuthService;
use crate::credentials::{argon2_accepts, lemma_phc_string, salt_ok};
use crate::errors::AppError;
use crate::user::{CreateUserDto, User};

verus! {

/// The account that a reset with `token` acts on (meaningful where the token is stored).
pub open spec fn reset_target(s: AuthService, token: Seq<char>) -> int {
    s.reset_tokens@[s.token_index(token)].user_id - 1
}

/// Once a username is registered, registering it again fails with
/// `UserAlreadyExists` and leaves the store, the first record included, as it was.
pub proof fn lemma_second_registration_rejected(
    s0: AuthService,
    s1: AuthService,
    s2: AuthService,
    first: CreateUserDto,
    second: CreateUserDto,
    salt1: Seq<char>,
    salt2: Seq<char>,
    t1: i64,
    t2: i64,
    r1: Result<User, AppError>,
    r2: Result<User, AppError>,
)
    requires
        s0.wf(),
        AuthService::register_outcome(s0, s1, first, salt1, t1, r1),
        r1 is Ok,
        second.username@ == first.username@,
        AuthService::register_outcome(s1, s2, second, salt2, t2, r2),
    ensures
        r2 == Err::<User, AppError>(AppError::UserAlreadyExists),
        s2 == s1,
{
    let k = s0.users@.len() as int;
    assert(s1.users@[k] == s1.users@.last());
    assert(s1.users@[k].username@ == second.username@);
    assert(s1.has_user(second.username@));
}

/// After a successful registration a lookup by the username finds exactly the
/// returned record, and the user can log in with the password they gave.
pub proof fn lemma_registered_user_can_log_in(
    s0: AuthService,
    s1: AuthService,
    dto: CreateUserDto,
    salt: Seq<char>,
    now: i64,
    r: Result<User, AppError>,
)
    requires
        s0.wf(),
        s1.wf(),
        AuthService::register_outcome(s0, s1, dto, salt, now, r),
        r is Ok,
    ensures
        s1.has_user(dto.username@),
        s1.users@[s1.user_index(dto.username@)].same_as(&r->Ok_0),
        s1.credentials_ok(dto.username@, dto.password@),
{
    let k = s0.users@.len() as int;
    assert(s1.users@[k] == s1.users@.last());
    assert(s1.has_user(dto.username@));
    let j = s1.user_index(dto.username@);
    assert(j == k);
}

/// Login is refused alike for an unknown username and for a password that the
/// stored hash does not accept.
pub proof fn lemma_login_rejections(s: AuthService, name: Seq<char>, password: Seq<char>)
    requires
        s.wf(),
    ensures
        !s.has_user(name) ==> !s.credentials_ok(name, password),
        s.has_user(name) && !argon2_accepts(password, s.users@[s.user_index(name)].password_hash@)
            ==> !s.credentials_ok(name, password),
{
}

/// After a successful reset the account's password is the new one: logging in
/// with a password succeeds exactly when the new hash accepts it, the new
/// password among them. The token is gone, so replaying it fails at any time.
pub proof fn lemma_reset_takes_effect_once(
    s0: AuthService,
    s1: AuthService,
    token: Seq<char>,
    new_password: Seq<char>,
    salt: Seq<char>,
    now: i64,
    r: Result<(), AppError>,
)
    requires
        s0.wf(),
        s1.wf(),
        AuthService::reset_outcome(s0, s1, token, new_password, salt, now, r),
        r is Ok,
    ensures
        ({
            let u = reset_target(s0, token);
            let name = s0.users@[u].username@;
            &&& s1.credentials_ok(name, new_password)
            &&& forall|q: Seq<char>|
                #[trigger] s1.credentials_ok(name, q) <==> argon2_accepts(
                    q,
                    s1.users@[u].password_hash@,
                )
        }),
        !s1.has_token(token),
        forall|later: i64| !s1.token_valid(token, later),
{
    let ti = s0.token_index(token);
    let u = reset_target(s0, token);
    let name = s0.users@[u].username@;
    assert(s1.users@[u].username@ == name);
    assert(s1.has_user(name));
    assert(s1.user_index(name) == u);
    if s1.has_token(token) {
        let i = s1.token_index(token);
        let i0 = if i < ti { i } else { i + 1 };
        assert(s1.reset_tokens@[i] == s0.reset_tokens@[i0]);
    }
}

/// A reset with a token that has expired fails with `InvalidToken` and changes
/// nothing, the user's password included.
pub proof fn lemma_expired_token_rejected(
    s0: AuthService,
    s1: AuthService,
    token: Seq<char>,
    new_password: Seq<char>,
    salt: Seq<char>,
    now: i64,
    r: Result<(), AppError>,
)
    requires
        s0.wf(),
        forall|i: int|
            0 <= i < s0.reset_tokens@.len() && (#[trigger] s0.reset_tokens@[i]).token@ == token
                ==> s0.reset_tokens@[i].expires_at <= now,
        AuthService::reset_outcome(s0, s1, token, new_password, salt, now, r),
    ensures
        r == Err::<(), AppError>(AppError::InvalidToken),
        s1 == s0,
{
    if s0.has_token(token) {
        let i = s0.token_index(token);
        assert(s0.reset_tokens@[i].token@ == token);
    }
}

/// Two accounts registered with the same password under different salts get
/// different stored hashes.
pub proof fn lemma_salted_hashes_differ(
    s0: AuthService,
    s1: AuthService,
    s2: AuthService,
    first: CreateUserDto,
    second: CreateUserDto,
    salt1: Seq<char>,
    salt2: Seq<char>,
    t1: i64,
    t2: i64,
    r1: Result<User, AppError>,
    r2: Result<User, AppError>,
)
    requires
        salt_ok(salt1),
        salt_ok(salt2),
        salt1 != salt2,
        AuthService::register_outcome(s0, s1, first, salt1, t1, r1),
        AuthService::register_outcome(s1, s2, second, salt2, t2, r2),
        r1 is Ok,
        r2 is Ok,
    ensures
        r1->Ok_0.password_hash@ != r2->Ok_0.password_hash@,
{
    lemma_phc_string(first.password@, salt1, second.password@, salt2);
}

/// A valid reset with a well-formed salt and a password Argon2 can take
/// always succeeds, and the new hash differs from an old one made under
/// another salt.
pub proof fn lemma_valid_reset_succeeds(
    s0: AuthService,
    s1: AuthService,
    token: Seq<char>,
    new_password: Seq<char>,
    old_password: Seq<char>,
    old_salt: Seq<char>,
    salt: Seq<char>,
    now: i64,
    r: Result<(), AppError>,
)
    requires
        s0.token_valid(token, now),
        salt_ok(salt),
        new_password.len() <= crate::credentials::MAX_PASSWORD_CHARS,
        AuthService::reset_outcome(s0, s1, token, new_password, salt, now, r),
    ensures
        r is Ok,
        salt_ok(old_salt) && old_salt != salt ==> AuthService::reset_hash(s1, s0, token)
            != crate::credentials::phc_string(old_password, old_salt),
{
    lemma_phc_string(new_password, salt, old_password, old_salt);
}

} // verus!
