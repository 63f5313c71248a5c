use vstd::prelude::*;

verus! {

/// The error taxonomy every operation of the core reports through.
/// Raw backend errors never cross this boundary: stores and the token
/// service map their own failures into one of these variants.
#[derive(Clone, Copy, Debug, PartialEq, Eq, Structural)]
pub enum AuthAPIError {
    /// Signup conflict: a user with the same email already exists.
    UserAlreadyExists,
    /// Malformed input (email without '@', password under 8 characters,
    /// ill-formed challenge id or code): a caller error.
    InvalidCredentials,
    /// Wrong password, unknown user, or a mismatched challenge; the three
    /// are deliberately indistinguishable to avoid account enumeration.
    IncorrectCredentials,
    /// No token was presented at all.
    MissingToken,
    /// The presented token is malformed, expired, or revoked.
    InvalidToken,
    /// A storage, signing, or delivery fault; opaque to the caller.
    UnexpectedError,
}

impl AuthAPIError {
    /// The HTTP status code each outcome maps to at the service boundary.
    pub fn status_code(&self) -> (code: u16)
        ensures
            code == match *self {
                AuthAPIError::UserAlreadyExists => 409u16,
                AuthAPIError::InvalidCredentials => 400u16,
                AuthAPIError::IncorrectCredentials => 401u16,
                AuthAPIError::MissingToken => 400u16,
                AuthAPIError::InvalidToken => 401u16,
                AuthAPIError::UnexpectedError => 500u16,
            },
    {
        match self {
            AuthAPIError::UserAlreadyExists => 409,
            AuthAPIError::InvalidCredentials => 400,
            AuthAPIError::IncorrectCredentials => 401,
            AuthAPIError::MissingToken => 400,
            AuthAPIError::InvalidToken => 401,
            AuthAPIError::UnexpectedError => 500,
        }
    }

    /// The user-visible message for each outcome.
    pub fn message(&self) -> (msg: String)
        ensures
            msg@ == match *self {
                AuthAPIError::UserAlreadyExists => "User already exists"@,
                AuthAPIError::InvalidCredentials => "Invalid credentials"@,
                AuthAPIError::IncorrectCredentials => "Incorrect credentials"@,
                AuthAPIError::MissingToken => "Missing token"@,
                AuthAPIError::InvalidToken => "Invalid token"@,
                AuthAPIError::UnexpectedError => "Unexpected error"@,
            },
    {
        match self {
            AuthAPIError::UserAlreadyExists => "User already exists".to_owned(),
            AuthAPIError::InvalidCredentials => "Invalid credentials".to_owned(),
            AuthAPIError::IncorrectCredentials => "Incorrect credentials".to_owned(),
            AuthAPIError::MissingToken => "Missing token".to_owned(),
            AuthAPIError::InvalidToken => "Invalid token".to_owned(),
            AuthAPIError::UnexpectedError => "Unexpected error".to_owned(),
        }
    }
}

/// The body shape of every error response.
pub struct ErrorResponse {
    pub error: String,
}

/// An older duplicate of `ErrorResponse`, kept because callers still name
/// it.
pub struct ErroMessage {
    pub error: String,
}

} // verus!
