use vstd::prelude::*;

verus! {

/// Every way an authentication operation can fail.
#[derive(Debug, Clone, PartialEq, Eq)]
pub enum AppError {
    InvalidCredentials,
    UserAlreadyExists,
    UserNotFound,
    InvalidToken,
    /// A storage-layer fault; the text is for operators only.
    DatabaseError(String),
    PasswordError,
    InternalServerError,
}

impl AppError {
    /// The HTTP status that a request handler reports for this error.
    pub open spec fn spec_status(&self) -> u16 {
        match self {
            AppError::InvalidCredentials => 401,
            AppError::UserAlreadyExists => 400,
            AppError::InvalidToken => 401,
            AppError::UserNotFound => 404,
            _ => 500,
        }
    }

    /// Domain errors are safe to show; faults are internal.
    pub open spec fn is_domain_error(&self) -> bool {
        match self {
            AppError::InvalidCredentials | AppError::UserAlreadyExists | AppError::UserNotFound
            | AppError::InvalidToken => true,
            _ => false,
        }
    }

    pub fn status(&self) -> (r: u16)
        ensures
            r == self.spec_status(),
            r == 500 <==> !self.is_domain_error(),
    {
        match self {
            AppError::InvalidCredentials => 401,
            AppError::UserAlreadyExists => 400,
            AppError::InvalidToken => 401,
            AppError::UserNotFound => 404,
            AppError::DatabaseError(_) => 500,
            AppError::PasswordError => 500,
            AppError::InternalServerError => 500,
        }
    }

    /// The message shown to the caller: never the detail of an internal fault.
    pub fn message(&self) -> (r: &'static str)
        ensures
            r@ == self.spec_message(),
    {
        match self {
            AppError::InvalidCredentials => "Invalid credentials",
            AppError::UserAlreadyExists => "User already exists",
            AppError::InvalidToken => "Invalid token",
            AppError::UserNotFound => "User not found",
            AppError::DatabaseError(_) => "Database error",
            AppError::PasswordError => "Password processing error",
            AppError::InternalServerError => "Internal server error",
        }
    }

    pub open spec fn spec_message(&self) -> Seq<char> {
        match self {
            AppError::InvalidCredentials => "Invalid credentials"@,
            AppError::UserAlreadyExists => "User already exists"@,
            AppError::InvalidToken => "Invalid token"@,
            AppError::UserNotFound => "User not found"@,
            AppError::DatabaseError(_) => "Database error"@,
            AppError::PasswordError => "Password processing error"@,
            AppError::InternalServerError => "Internal server error"@,
        }
    }
}

} // verus!
