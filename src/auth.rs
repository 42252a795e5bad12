use vstd::prelude::*;
use crate::clock::now_timestamp;
use crate::credentials::{
    argon2_accepts, generate_salt, has_default_params, hash_password, phc_string, salt_ok,
    verify_password, MAX_PASSWORD_CHARS,
};
use crate::errors::AppError;
use crate::tokens::{fresh_token, uuid_v4_text};
use crate::user::{opt_view, CreateUserDto, LoginDto, PasswordResetToken, TokenResponse, User};

verus! {

/// How long a reset token stays valid: 24 hours, in seconds.
pub const RESET_TOKEN_LIFETIME: i64 = 86400;

/// The credential store: the users table and the password reset tokens table,
/// with the constraints the schema places on them.
pub struct AuthService {
    pub users: Vec<User>,
    pub reset_tokens: Vec<PasswordResetToken>,
    pub jwt_secret: String,
}

impl AuthService {
    /// Ids are assigned in order from 1, every stored hash is an Argon2 PHC
    /// string with the default parameters (so never empty), usernames and
    /// reset tokens are unique, and every reset token belongs to an existing user.
    pub open spec fn wf(&self) -> bool {
        &&& forall|i: int| 0 <= i < self.users@.len() ==> self.users@[i].id == i + 1
        &&& forall|i: int|
            0 <= i < self.users@.len() ==> has_default_params(
                (#[trigger] self.users@[i]).password_hash@,
            )
        &&& forall|i: int, j: int|
            0 <= i < self.users@.len() && 0 <= j < self.users@.len() && i != j
                ==> self.users@[i].username@ != self.users@[j].username@
        &&& forall|i: int, j: int|
            0 <= i < self.reset_tokens@.len() && 0 <= j < self.reset_tokens@.len() && i != j
                ==> self.reset_tokens@[i].token@ != self.reset_tokens@[j].token@
        &&& forall|i: int|
            0 <= i < self.reset_tokens@.len() ==> 1 <= (#[trigger] self.reset_tokens@[i]).user_id
                && self.reset_tokens@[i].user_id <= self.users@.len()
    }

    pub open spec fn has_user(&self, name: Seq<char>) -> bool {
        exists|i: int| 0 <= i < self.users@.len() && self.users@[i].username@ == name
    }

    /// Position of the user called `name` (meaningful where `has_user(name)`).
    pub open spec fn user_index(&self, name: Seq<char>) -> int {
        choose|i: int| 0 <= i < self.users@.len() && self.users@[i].username@ == name
    }

    /// `name` is registered and `password` matches its stored hash.
    pub open spec fn credentials_ok(&self, name: Seq<char>, password: Seq<char>) -> bool {
        self.has_user(name) && argon2_accepts(
            password,
            self.users@[self.user_index(name)].password_hash@,
        )
    }

    pub open spec fn has_token(&self, token: Seq<char>) -> bool {
        exists|i: int| 0 <= i < self.reset_tokens@.len() && self.reset_tokens@[i].token@ == token
    }

    /// Position of the reset token `token` (meaningful where `has_token(token)`).
    pub open spec fn token_index(&self, token: Seq<char>) -> int {
        choose|i: int| 0 <= i < self.reset_tokens@.len() && self.reset_tokens@[i].token@ == token
    }

    /// `token` is stored and has not expired at time `now`.
    pub open spec fn token_valid(&self, token: Seq<char>, now: i64) -> bool {
        self.has_token(token) && now < self.reset_tokens@[self.token_index(token)].expires_at
    }

    /// What registering `dto` at time `now` does, taking `old` to `new` with result `r`.
    /// `new` is `old` with one user appended: the record `u`, made from `dto`
    /// at time `now` under the next id.
    pub open spec fn user_added(
        old: AuthService,
        new: AuthService,
        dto: CreateUserDto,
        u: User,
        now: i64,
    ) -> bool {
        &&& new.users@ == old.users@.push(new.users@.last())
        &&& new.users@.last().same_as(&u)
        &&& new.reset_tokens == old.reset_tokens
        &&& u.id == old.users@.len() + 1
        &&& u.username@ == dto.username@
        &&& u.name@ == dto.name@
        &&& opt_view(u.email) == opt_view(dto.email)
        &&& opt_view(u.phone) == opt_view(dto.phone)
        &&& u.created_at == now
        &&& u.updated_at == now
    }

    /// What registering `dto` with password salt `salt` at time `now` does,
    /// taking `old` to `new` with result `r`. Hashing fails only for a
    /// malformed salt or a password too long for Argon2.
    pub open spec fn register_outcome(
        old: AuthService,
        new: AuthService,
        dto: CreateUserDto,
        salt: Seq<char>,
        now: i64,
        r: Result<User, AppError>,
    ) -> bool {
        if old.has_user(dto.username@) {
            r == Err::<User, AppError>(AppError::UserAlreadyExists) && new == old
        } else if old.users@.len() >= i32::MAX {
            r is Err && r->Err_0 is DatabaseError && new == old
        } else {
            match r {
                Ok(u) => {
                    &&& Self::user_added(old, new, dto, u, now)
                    &&& u.password_hash@ == phc_string(dto.password@, salt)
                    &&& argon2_accepts(dto.password@, u.password_hash@)
                },
                Err(e) => {
                    &&& e == AppError::PasswordError
                    &&& new == old
                    &&& !(salt_ok(salt) && dto.password@.len() <= MAX_PASSWORD_CHARS)
                },
            }
        }
    }

    /// What storing the reset token `token` for `username` at time `now` does.
    pub open spec fn issue_outcome(
        old: AuthService,
        new: AuthService,
        username: Seq<char>,
        token: Seq<char>,
        now: i64,
        r: Result<String, AppError>,
    ) -> bool {
        if !old.has_user(username) {
            r == Err::<String, AppError>(AppError::InvalidCredentials) && new == old
        } else if now > i64::MAX - RESET_TOKEN_LIFETIME {
            r == Err::<String, AppError>(AppError::InternalServerError) && new == old
        } else if old.has_token(token) {
            r is Err && r->Err_0 is DatabaseError && new == old
        } else {
            &&& r is Ok
            &&& r->Ok_0@ == token
            &&& new.users == old.users
            &&& new.reset_tokens@ == old.reset_tokens@.push(new.reset_tokens@.last())
            &&& new.reset_tokens@.last().token@ == token
            &&& new.reset_tokens@.last().user_id == old.users@[old.user_index(username)].id
            &&& new.reset_tokens@.last().expires_at == now + RESET_TOKEN_LIFETIME
            &&& new.reset_tokens@.last().created_at == now
        }
    }

    /// What asking for a fresh reset token for `username` at time `now` does:
    /// storing some freshly drawn UUID text, which fails only where that
    /// token is already stored.
    pub open spec fn forgot_outcome(
        old: AuthService,
        new: AuthService,
        username: Seq<char>,
        now: i64,
        r: Result<String, AppError>,
    ) -> bool {
        exists|t: Seq<char>| uuid_v4_text(t) && Self::issue_outcome(old, new, username, t, now, r)
    }

    /// `new` is `old` after the valid reset token `token` was used at time
    /// `now`: the token row is gone and its user's `updated_at` is `now`; the
    /// user's other fields, but for the password hash, and all else are kept.
    pub open spec fn password_replaced(
        old: AuthService,
        new: AuthService,
        token: Seq<char>,
        now: i64,
    ) -> bool {
        let ti = old.token_index(token);
        let ui = old.reset_tokens@[ti].user_id - 1;
        &&& new.reset_tokens@ == old.reset_tokens@.remove(ti)
        &&& new.users@ == old.users@.update(ui, new.users@[ui])
        &&& new.users@[ui].id == old.users@[ui].id
        &&& new.users@[ui].username == old.users@[ui].username
        &&& new.users@[ui].name == old.users@[ui].name
        &&& new.users@[ui].email == old.users@[ui].email
        &&& new.users@[ui].phone == old.users@[ui].phone
        &&& new.users@[ui].created_at == old.users@[ui].created_at
        &&& new.users@[ui].updated_at == now
    }

    /// The stored hash of the user that the reset token `token` belongs to.
    pub open spec fn reset_hash(new: AuthService, old: AuthService, token: Seq<char>) -> Seq<char> {
        new.users@[old.reset_tokens@[old.token_index(token)].user_id - 1].password_hash@
    }

    /// What resetting the password with `token` to `new_password`, salted
    /// with `salt`, at time `now` does.
    pub open spec fn reset_outcome(
        old: AuthService,
        new: AuthService,
        token: Seq<char>,
        new_password: Seq<char>,
        salt: Seq<char>,
        now: i64,
        r: Result<(), AppError>,
    ) -> bool {
        if !old.token_valid(token, now) {
            r == Err::<(), AppError>(AppError::InvalidToken) && new == old
        } else {
            match r {
                Ok(_) => {
                    &&& Self::password_replaced(old, new, token, now)
                    &&& Self::reset_hash(new, old, token) == phc_string(new_password, salt)
                    &&& argon2_accepts(new_password, Self::reset_hash(new, old, token))
                },
                Err(e) => {
                    &&& e == AppError::PasswordError
                    &&& new == old
                    &&& !(salt_ok(salt) && new_password.len() <= MAX_PASSWORD_CHARS)
                },
            }
        }
    }

    proof fn lemma_user_at(&self, name: Seq<char>, i: int)
        requires
            self.wf(),
            0 <= i < self.users@.len(),
            self.users@[i].username@ == name,
        ensures
            self.has_user(name),
            self.user_index(name) == i,
    {
        assert(self.has_user(name));
    }

    proof fn lemma_token_at(&self, token: Seq<char>, i: int)
        requires
            self.wf(),
            0 <= i < self.reset_tokens@.len(),
            self.reset_tokens@[i].token@ == token,
        ensures
            self.has_token(token),
            self.token_index(token) == i,
    {
        assert(self.has_token(token));
    }

    /// An empty store, configured with the given secret.
    pub fn new(jwt_secret: String) -> (r: AuthService)
        ensures
            r.wf(),
            r.jwt_secret@ == jwt_secret@,
            r.users@.len() == 0,
            r.reset_tokens@.len() == 0,
    {
        AuthService { users: Vec::new(), reset_tokens: Vec::new(), jwt_secret }
    }

    /// The position of the user called `name`, if any.
    pub fn find_user(&self, name: &String) -> (r: Option<usize>)
        requires
            self.wf(),
        ensures
            match r {
                Some(i) => self.has_user(name@) && i == self.user_index(name@),
                None => !self.has_user(name@),
            },
    {
        let mut i: usize = 0;
        while i < self.users.len()
            invariant
                self.wf(),
                i <= self.users@.len(),
                forall|j: int| 0 <= j < i ==> self.users@[j].username@ != name@,
            decreases self.users@.len() - i,
        {
            if self.users[i].username == *name {
                proof {
                    self.lemma_user_at(name@, i as int);
                }
                return Some(i);
            }
            i += 1;
        }
        None
    }

    /// The position of the reset token `token`, if it is stored.
    pub fn find_token(&self, token: &String) -> (r: Option<usize>)
        requires
            self.wf(),
        ensures
            match r {
                Some(i) => self.has_token(token@) && i == self.token_index(token@),
                None => !self.has_token(token@),
            },
    {
        let mut i: usize = 0;
        while i < self.reset_tokens.len()
            invariant
                self.wf(),
                i <= self.reset_tokens@.len(),
                forall|j: int| 0 <= j < i ==> self.reset_tokens@[j].token@ != token@,
            decreases self.reset_tokens@.len() - i,
        {
            if self.reset_tokens[i].token == *token {
                proof {
                    self.lemma_token_at(token@, i as int);
                }
                return Some(i);
            }
            i += 1;
        }
        None
    }


    /// Appends the record for `dto` under the next id, with `password_hash`
    /// as its stored hash and `now` as both timestamps.
    pub fn insert_user(&mut self, dto: CreateUserDto, password_hash: String, now: i64) -> (r: User)
        requires
            old(self).wf(),
            !old(self).has_user(dto.username@),
            old(self).users@.len() < i32::MAX,
            has_default_params(password_hash@),
        ensures
            final(self).wf(),
            Self::user_added(*old(self), *final(self), dto, r, now),
            r.password_hash@ == password_hash@,
    {
        let user = User {
            id: (self.users.len() + 1) as i32,
            username: dto.username,
            password_hash,
            name: dto.name,
            email: dto.email,
            phone: dto.phone,
            created_at: now,
            updated_at: now,
        };
        let record = user.duplicate();
        let ghost pre = *self;
        self.users.push(user);
        proof {
            assert(self.users@ == pre.users@.push(self.users@.last()));
            assert forall|i: int, j: int|
                0 <= i < self.users@.len() && 0 <= j < self.users@.len() && i != j
                    implies self.users@[i].username@ != self.users@[j].username@ by {
                if j == pre.users@.len() {
                    assert(pre.users@[i].username@ != dto.username@);
                } else if i == pre.users@.len() {
                    assert(pre.users@[j].username@ != dto.username@);
                }
            }
        }
        record
    }

    /// Creates an account for a username that is not taken yet, storing the
    /// hash of the password under `salt` and `now` as both timestamps.
    pub fn register_with_salt(&mut self, dto: CreateUserDto, salt: &String, now: i64) -> (r: Result<User, AppError>)
        requires
            old(self).wf(),
        ensures
            final(self).wf(),
            Self::register_outcome(*old(self), *final(self), dto, salt@, now, r),
    {
        if self.find_user(&dto.username).is_some() {
            return Err(AppError::UserAlreadyExists);
        }
        if self.users.len() >= i32::MAX as usize {
            return Err(AppError::DatabaseError("user id space exhausted".to_string()));
        }
        let password_hash = match hash_password(dto.password.as_str(), salt.as_str()) {
            Ok(h) => h,
            Err(_) => return Err(AppError::PasswordError),
        };
        proof {
            crate::credentials::lemma_phc_string(dto.password@, salt@, dto.password@, salt@);
        }
        Ok(self.insert_user(dto, password_hash, now))
    }

    /// `register_with_salt` with a freshly generated random salt.
    pub fn register_at(&mut self, dto: CreateUserDto, now: i64) -> (r: Result<User, AppError>)
        requires
            old(self).wf(),
        ensures
            final(self).wf(),
            exists|salt: Seq<char>|
                salt_ok(salt) && Self::register_outcome(*old(self), *final(self), dto, salt, now, r),
    {
        let salt = generate_salt();
        self.register_with_salt(dto, &salt, now)
    }

    /// Checks `password` against the stored hash of `username` and, on a
    /// match, mints a fresh opaque session token. An unknown user, an
    /// unreadable hash and a wrong password give the same error.
    ///
    /// Limitation: the session token is neither stored nor given an expiry,
    /// so nothing can check or revoke it later; a persisted or signed session
    /// scheme is still to be designed.
    pub fn login(&self, dto: LoginDto) -> (r: Result<TokenResponse, AppError>)
        requires
            self.wf(),
        ensures
            match r {
                Ok(t) => self.credentials_ok(dto.username@, dto.password@) && uuid_v4_text(t.token@),
                Err(e) => !self.credentials_ok(dto.username@, dto.password@) && e
                    == AppError::InvalidCredentials,
            },
    {
        let ui = match self.find_user(&dto.username) {
            Some(ui) => ui,
            None => return Err(AppError::InvalidCredentials),
        };
        if !verify_password(dto.password.as_str(), self.users[ui].password_hash.as_str()) {
            return Err(AppError::InvalidCredentials);
        }
        Ok(TokenResponse { token: fresh_token() })
    }

    /// Stores `token` as a reset token for `username`, valid for 24 hours
    /// from `now`. A token that is already stored is refused, as the unique
    /// constraint on the tokens table would. An unknown username gets the same
    /// `InvalidCredentials` as a failed login rather than `UserNotFound`.
    pub fn issue_reset_token(&mut self, username: &String, token: String, now: i64) -> (r: Result<String, AppError>)
        requires
            old(self).wf(),
        ensures
            final(self).wf(),
            Self::issue_outcome(*old(self), *final(self), username@, token@, now, r),
    {
        let ui = match self.find_user(username) {
            Some(ui) => ui,
            None => return Err(AppError::InvalidCredentials),
        };
        if now > i64::MAX - RESET_TOKEN_LIFETIME {
            return Err(AppError::InternalServerError);
        }
        if self.find_token(&token).is_some() {
            return Err(AppError::DatabaseError("duplicate reset token".to_string()));
        }
        let row = PasswordResetToken {
            user_id: self.users[ui].id,
            token: token.clone(),
            expires_at: now + RESET_TOKEN_LIFETIME,
            created_at: now,
        };
        let ghost pre = *self;
        self.reset_tokens.push(row);
        proof {
            assert(self.reset_tokens@ == pre.reset_tokens@.push(self.reset_tokens@.last()));
            assert forall|i: int, j: int|
                0 <= i < self.reset_tokens@.len() && 0 <= j < self.reset_tokens@.len() && i != j
                    implies self.reset_tokens@[i].token@ != self.reset_tokens@[j].token@ by {
                if j == pre.reset_tokens@.len() {
                    assert(pre.reset_tokens@[i].token@ != token@);
                } else if i == pre.reset_tokens@.len() {
                    assert(pre.reset_tokens@[j].token@ != token@);
                }
            }
        }
        Ok(token)
    }

    /// Mints a fresh reset token for `username` and stores it, valid for 24
    /// hours from `now`; returns it for delivery to the user.
    pub fn forgot_password_at(&mut self, username: String, now: i64) -> (r: Result<String, AppError>)
        requires
            old(self).wf(),
        ensures
            final(self).wf(),
            Self::forgot_outcome(*old(self), *final(self), username@, now, r),
    {
        let token = fresh_token();
        let ghost t = token@;
        let ghost pre = *self;
        let r = self.issue_reset_token(&username, token, now);
        assert(Self::issue_outcome(pre, *self, username@, t, now, r));
        r
    }

    /// Uses the valid reset token `token`: stores `password_hash` for its
    /// user, with `now` as `updated_at`, and deletes the token.
    pub fn consume_reset_token(&mut self, token: &String, password_hash: String, now: i64)
        requires
            old(self).wf(),
            old(self).token_valid(token@, now),
            has_default_params(password_hash@),
        ensures
            final(self).wf(),
            Self::password_replaced(*old(self), *final(self), token@, now),
            Self::reset_hash(*final(self), *old(self), token@) == password_hash@,
    {
        let ti = match self.find_token(token) {
            Some(ti) => ti,
            None => return,
        };
        let ui = (self.reset_tokens[ti].user_id - 1) as usize;
        let ghost pre = *self;
        let ghost h = password_hash@;
        self.users[ui].password_hash = password_hash;
        self.users[ui].updated_at = now;
        self.reset_tokens.remove(ti);
        proof {
            assert(self.users@ == pre.users@.update(ui as int, self.users@[ui as int]));
            assert forall|i: int, j: int|
                0 <= i < self.reset_tokens@.len() && 0 <= j < self.reset_tokens@.len() && i != j
                    implies self.reset_tokens@[i].token@ != self.reset_tokens@[j].token@ by {
                let i0 = if i < ti { i } else { i + 1 };
                let j0 = if j < ti { j } else { j + 1 };
                assert(self.reset_tokens@[i] == pre.reset_tokens@[i0]);
                assert(self.reset_tokens@[j] == pre.reset_tokens@[j0]);
            }
            assert forall|i: int| 0 <= i < self.reset_tokens@.len() implies 1 <= (
            #[trigger] self.reset_tokens@[i]).user_id && self.reset_tokens@[i].user_id
                <= self.users@.len() by {
                let i0 = if i < ti { i } else { i + 1 };
                assert(self.reset_tokens@[i] == pre.reset_tokens@[i0]);
            }
        }
    }

    /// Sets a new password, hashed under `salt`, using a reset token that is
    /// stored and unexpired at `now`, then deletes the token so that it
    /// cannot be used again.
    pub fn reset_password_with_salt(
        &mut self,
        token: String,
        new_password: String,
        salt: &String,
        now: i64,
    ) -> (r: Result<(), AppError>)
        requires
            old(self).wf(),
        ensures
            final(self).wf(),
            Self::reset_outcome(*old(self), *final(self), token@, new_password@, salt@, now, r),
    {
        let ti = match self.find_token(&token) {
            Some(ti) => ti,
            None => return Err(AppError::InvalidToken),
        };
        if now >= self.reset_tokens[ti].expires_at {
            return Err(AppError::InvalidToken);
        }
        let password_hash = match hash_password(new_password.as_str(), salt.as_str()) {
            Ok(h) => h,
            Err(_) => return Err(AppError::PasswordError),
        };
        proof {
            crate::credentials::lemma_phc_string(new_password@, salt@, new_password@, salt@);
        }
        self.consume_reset_token(&token, password_hash, now);
        Ok(())
    }

    /// `reset_password_with_salt` with a freshly generated random salt.
    pub fn reset_password_at(&mut self, token: String, new_password: String, now: i64) -> (r: Result<(), AppError>)
        requires
            old(self).wf(),
        ensures
            final(self).wf(),
            exists|salt: Seq<char>|
                salt_ok(salt) && Self::reset_outcome(
                    *old(self),
                    *final(self),
                    token@,
                    new_password@,
                    salt,
                    now,
                    r,
                ),
    {
        let salt = generate_salt();
        self.reset_password_with_salt(token, new_password, &salt, now)
    }

    /// `register_at` at the current time.
    pub fn register(&mut self, dto: CreateUserDto) -> (r: Result<User, AppError>)
        requires
            old(self).wf(),
        ensures
            final(self).wf(),
            exists|now: i64, salt: Seq<char>|
                salt_ok(salt) && Self::register_outcome(*old(self), *final(self), dto, salt, now, r),
    {
        let ghost pre = *self;
        let ghost d = dto;
        let now = now_timestamp();
        let salt = generate_salt();
        let r = self.register_with_salt(dto, &salt, now);
        assert(salt_ok(salt@) && Self::register_outcome(pre, *self, d, salt@, now, r));
        r
    }

    /// `forgot_password_at` at the current time.
    pub fn forgot_password(&mut self, username: String) -> (r: Result<String, AppError>)
        requires
            old(self).wf(),
        ensures
            final(self).wf(),
            exists|now: i64|
                0 <= now <= 10_000_000_000_000 && Self::forgot_outcome(
                    *old(self),
                    *final(self),
                    username@,
                    now,
                    r,
                ),
            old(self).has_user(username@) ==> r is Ok || r->Err_0 is DatabaseError,
    {
        let ghost pre = *self;
        let ghost name = username@;
        let now = now_timestamp();
        let r = self.forgot_password_at(username, now);
        assert(Self::forgot_outcome(pre, *self, name, now, r));
        r
    }

    /// `reset_password_at` at the current time.
    pub fn reset_password(&mut self, token: String, new_password: String) -> (r: Result<(), AppError>)
        requires
            old(self).wf(),
        ensures
            final(self).wf(),
            exists|now: i64, salt: Seq<char>|
                salt_ok(salt) && Self::reset_outcome(
                    *old(self),
                    *final(self),
                    token@,
                    new_password@,
                    salt,
                    now,
                    r,
                ),
    {
        let ghost pre = *self;
        let ghost t = token@;
        let ghost p = new_password@;
        let now = now_timestamp();
        let salt = generate_salt();
        let r = self.reset_password_with_salt(token, new_password, &salt, now);
        assert(salt_ok(salt@) && Self::reset_outcome(pre, *self, t, p, salt@, now, r));
        r
    }
}

} // verus!
