use vstd::prelude::*;

verus! {

/// The text of an optional string field.
pub open spec fn opt_view(o: Option<String>) -> Option<Seq<char>> {
    match o {
        Some(s) => Some(s@),
        None => None,
    }
}

pub fn clone_opt(o: &Option<String>) -> (r: Option<String>)
    ensures
        opt_view(r) == opt_view(*o),
{
    match o {
        Some(s) => Some(s.clone()),
        None => None,
    }
}

/// A registered account. Timestamps are seconds since the Unix epoch.
#[derive(Debug)]
pub struct User {
    pub id: i32,
    pub username: String,
    /// Salted hash in PHC string form; never the plaintext password.
    pub password_hash: String,
    pub name: String,
    pub email: Option<String>,
    pub phone: Option<String>,
    pub created_at: i64,
    pub updated_at: i64,
}

impl User {
    /// Two records that hold the same values.
    pub open spec fn same_as(&self, other: &User) -> bool {
        &&& self.id == other.id
        &&& self.username@ == other.username@
        &&& self.password_hash@ == other.password_hash@
        &&& self.name@ == other.name@
        &&& opt_view(self.email) == opt_view(other.email)
        &&& opt_view(self.phone) == opt_view(other.phone)
        &&& self.created_at == other.created_at
        &&& self.updated_at == other.updated_at
    }

    pub fn duplicate(&self) -> (r: User)
        ensures
            r.same_as(self),
    {
        User {
            id: self.id,
            username: self.username.clone(),
            password_hash: self.password_hash.clone(),
            name: self.name.clone(),
            email: clone_opt(&self.email),
            phone: clone_opt(&self.phone),
            created_at: self.created_at,
            updated_at: self.updated_at,
        }
    }
}

/// A pending password reset: valid while the current time is before `expires_at`.
#[derive(Debug)]
pub struct PasswordResetToken {
    pub user_id: i32,
    pub token: String,
    pub expires_at: i64,
    pub created_at: i64,
}

#[derive(Debug)]
pub struct CreateUserDto {
    pub username: String,
    pub password: String,
    pub name: String,
    pub email: Option<String>,
    pub phone: Option<String>,
}

#[derive(Debug)]
pub struct LoginDto {
    pub username: String,
    pub password: String,
}

#[derive(Debug)]
pub struct ForgotPasswordDto {
    pub username: String,
}

#[derive(Debug)]
pub struct ResetPasswordDto {
    pub token: String,
    pub new_password: String,
}

/// An opaque session token handed to the caller.
#[derive(Debug)]
pub struct TokenResponse {
    pub token: String,
}

} // verus!
