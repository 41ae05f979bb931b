//! The closed set of authentication failures and their transport mapping.
use vstd::prelude::*;

verus! {

/// The kinds of authentication failure.
#[derive(Clone, Copy, Debug, PartialEq, Eq, Structural)]
pub enum AuthErrorType {
    InvalidToken,
    ServerError,
    TokenGeneration,
    UserExists,
    UserNotExists,
    WrongCredentials,
}

/// HTTP status code attached to each kind of failure.
pub open spec fn status_of(t: AuthErrorType) -> u16 {
    match t {
        AuthErrorType::InvalidToken => 401,
        AuthErrorType::ServerError => 500,
        AuthErrorType::TokenGeneration => 500,
        AuthErrorType::UserExists => 409,
        AuthErrorType::UserNotExists => 404,
        AuthErrorType::WrongCredentials => 401,
    }
}

/// User-facing message attached to each kind of failure.
pub open spec fn message_of(t: AuthErrorType) -> Seq<char> {
    match t {
        AuthErrorType::InvalidToken => "Invalid token"@,
        AuthErrorType::ServerError => "Server error"@,
        AuthErrorType::TokenGeneration => "Error generating token"@,
        AuthErrorType::UserExists => "User already exists"@,
        AuthErrorType::UserNotExists => "User does not exist"@,
        AuthErrorType::WrongCredentials => "Incorrect password"@,
    }
}

/// The body of an error response.
#[derive(Clone, Debug)]
pub struct AuthErrorBody {
    pub error_type: AuthErrorType,
    pub error_message: String,
}

/// A failure together with the status it is reported under.
#[derive(Clone, Debug)]
pub struct AuthError {
    pub status: u16,
    pub body: AuthErrorBody,
}

impl AuthError {
    /// The canonical error of a kind: its fixed status and message.
    pub open spec fn is_of(self, t: AuthErrorType) -> bool {
        &&& self.status == status_of(t)
        &&& self.body.error_type == t
        &&& self.body.error_message@ == message_of(t)
    }

    /// The error reported when nothing more precise is known: `ServerError`.
    pub fn default() -> (r: AuthError)
        ensures
            r.is_of(AuthErrorType::ServerError),
    {
        AuthError::from_type(AuthErrorType::ServerError)
    }

    /// Builds the error of a kind from the fixed (status, message) table.
    pub fn from_type(error_type: AuthErrorType) -> (r: AuthError)
        ensures
            r.is_of(error_type),
    {
        let (status, error_message): (u16, String) = match error_type {
            AuthErrorType::InvalidToken => (401, "Invalid token".to_string()),
            AuthErrorType::ServerError => (500, "Server error".to_string()),
            AuthErrorType::TokenGeneration => (500, "Error generating token".to_string()),
            AuthErrorType::UserExists => (409, "User already exists".to_string()),
            AuthErrorType::UserNotExists => (404, "User does not exist".to_string()),
            AuthErrorType::WrongCredentials => (401, "Incorrect password".to_string()),
        };
        AuthError { status, body: AuthErrorBody { error_type, error_message } }
    }

    /// The transport status of this error.
    pub fn status(&self) -> (r: u16)
        ensures
            r == self.status,
    {
        self.status
    }

    /// A copy of the response body of this error.
    pub fn body(&self) -> (r: AuthErrorBody)
        ensures
            r.error_type == self.body.error_type,
            r.error_message@ == self.body.error_message@,
    {
        AuthErrorBody {
            error_type: self.body.error_type,
            error_message: self.body.error_message.clone(),
        }
    }
}

} // verus!
