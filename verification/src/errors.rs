//! Error types of the subsystem, with the HTTP status each maps to.

use vstd::prelude::*;
use vstd::string::StringExecFns;

verus! {

/// Errors of the user, session and second-factor flows.
#[derive(Debug, Clone, PartialEq, Eq)]
pub enum UserError {
    UserCreationFailure,
    NoSuchUserFound,
    AuthenticationFailure,
    UserAlreadyExists,
    ValidationError(String),
    InvalidRefreshToken,
    TokenCreationFailure,
    PasswordHashingFailure,
    InvalidCredentials,
    TwoFactorRequired,
    TwoFactorAlreadyEnabled,
    TwoFactorNotEnabled,
    InvalidTwoFactorCode,
    TwoFactorSecretGenerationFailure,
    QRCodeGenerationFailure,
    BadRequest(String),
    DatabaseError(String),
}

impl UserError {
    /// The HTTP status served for this error.
    pub open spec fn spec_status_code(&self) -> u16 {
        match self {
            UserError::UserCreationFailure => 500,
            UserError::NoSuchUserFound => 404,
            UserError::AuthenticationFailure => 401,
            UserError::UserAlreadyExists => 409,
            UserError::ValidationError(_) => 400,
            UserError::InvalidRefreshToken => 401,
            UserError::TokenCreationFailure => 500,
            UserError::PasswordHashingFailure => 500,
            UserError::InvalidCredentials => 401,
            UserError::TwoFactorRequired => 401,
            UserError::TwoFactorAlreadyEnabled => 400,
            UserError::TwoFactorNotEnabled => 400,
            UserError::InvalidTwoFactorCode => 401,
            UserError::TwoFactorSecretGenerationFailure => 500,
            UserError::QRCodeGenerationFailure => 500,
            UserError::BadRequest(_) => 400,
            UserError::DatabaseError(_) => 500,
        }
    }

    pub fn status_code(&self) -> (code: u16)
        ensures
            code == self.spec_status_code(),
    {
        match self {
            UserError::UserCreationFailure => 500,
            UserError::NoSuchUserFound => 404,
            UserError::AuthenticationFailure => 401,
            UserError::UserAlreadyExists => 409,
            UserError::ValidationError(_) => 400,
            UserError::InvalidRefreshToken => 401,
            UserError::TokenCreationFailure => 500,
            UserError::PasswordHashingFailure => 500,
            UserError::InvalidCredentials => 401,
            UserError::TwoFactorRequired => 401,
            UserError::TwoFactorAlreadyEnabled => 400,
            UserError::TwoFactorNotEnabled => 400,
            UserError::InvalidTwoFactorCode => 401,
            UserError::TwoFactorSecretGenerationFailure => 500,
            UserError::QRCodeGenerationFailure => 500,
            UserError::BadRequest(_) => 400,
            UserError::DatabaseError(_) => 500,
        }
    }

    /// Human-readable message, in place of a `Display` impl.
    pub open spec fn spec_message(&self) -> Seq<char> {
        match self {
            UserError::UserCreationFailure => "User creation failed"@,
            UserError::NoSuchUserFound => "No such user found"@,
            UserError::AuthenticationFailure => "Authentication failed"@,
            UserError::UserAlreadyExists => "Username already exists"@,
            UserError::ValidationError(s) => "Validation error: "@ + s@,
            UserError::InvalidRefreshToken => "Invalid refresh token"@,
            UserError::TokenCreationFailure => "Token creation failed"@,
            UserError::PasswordHashingFailure => "Password hashing failed"@,
            UserError::InvalidCredentials => "Invalid credentials"@,
            UserError::TwoFactorRequired => "2FA is required"@,
            UserError::TwoFactorAlreadyEnabled => "2FA is already enabled"@,
            UserError::TwoFactorNotEnabled => "2FA is not enabled"@,
            UserError::InvalidTwoFactorCode => "Invalid 2FA code"@,
            UserError::TwoFactorSecretGenerationFailure => "Failed to generate 2FA secret"@,
            UserError::QRCodeGenerationFailure => "Failed to generate QR code"@,
            UserError::BadRequest(s) => "Bad request: "@ + s@,
            UserError::DatabaseError(s) => "Database error: "@ + s@,
        }
    }

    pub fn message(&self) -> (msg: String)
        ensures
            msg@ == self.spec_message(),
    {
        match self {
            UserError::UserCreationFailure => "User creation failed".to_owned(),
            UserError::NoSuchUserFound => "No such user found".to_owned(),
            UserError::AuthenticationFailure => "Authentication failed".to_owned(),
            UserError::UserAlreadyExists => "Username already exists".to_owned(),
            UserError::ValidationError(s) => "Validation error: ".to_owned().concat(s.as_str()),
            UserError::InvalidRefreshToken => "Invalid refresh token".to_owned(),
            UserError::TokenCreationFailure => "Token creation failed".to_owned(),
            UserError::PasswordHashingFailure => "Password hashing failed".to_owned(),
            UserError::InvalidCredentials => "Invalid credentials".to_owned(),
            UserError::TwoFactorRequired => "2FA is required".to_owned(),
            UserError::TwoFactorAlreadyEnabled => "2FA is already enabled".to_owned(),
            UserError::TwoFactorNotEnabled => "2FA is not enabled".to_owned(),
            UserError::InvalidTwoFactorCode => "Invalid 2FA code".to_owned(),
            UserError::TwoFactorSecretGenerationFailure => "Failed to generate 2FA secret".to_owned(),
            UserError::QRCodeGenerationFailure => "Failed to generate QR code".to_owned(),
            UserError::BadRequest(s) => "Bad request: ".to_owned().concat(s.as_str()),
            UserError::DatabaseError(s) => "Database error: ".to_owned().concat(s.as_str()),
        }
    }
}

/// Error of the item cache path.
#[derive(Debug, Clone, PartialEq, Eq)]
pub enum TodoError {
    CacheError,
}

impl TodoError {
    pub fn status_code(&self) -> (code: u16)
        ensures
            code == 500,
    {
        500
    }
}

/// Errors of the legacy catalogue flow.
#[derive(Debug, Clone, PartialEq, Eq)]
pub enum PizzaError {
    NoPizzasFound,
    PizzaCreationFailure,
    NoSuchPizzaFound,
}

impl PizzaError {
    pub open spec fn spec_status_code(&self) -> u16 {
        match self {
            PizzaError::NoPizzasFound => 404,
            PizzaError::PizzaCreationFailure => 500,
            PizzaError::NoSuchPizzaFound => 404,
        }
    }

    pub fn status_code(&self) -> (code: u16)
        ensures
            code == self.spec_status_code(),
    {
        match self {
            PizzaError::NoPizzasFound => 404,
            PizzaError::PizzaCreationFailure => 500,
            PizzaError::NoSuchPizzaFound => 404,
        }
    }
}

/// A status code paired with a message, used by the item endpoints.
#[derive(Debug, Clone)]
pub struct AppError {
    pub status_code: u16,
    pub message: String,
}

impl AppError {
    pub fn new(status_code: u16, message: String) -> (e: Self)
        ensures
            e.status_code == status_code,
            e.message@ == message@,
    {
        AppError { status_code, message }
    }

    pub fn internal_server_error(message: String) -> (e: Self)
        ensures
            e.status_code == 500,
            e.message@ == message@,
    {
        Self::new(500, message)
    }

    pub fn bad_request(message: String) -> (e: Self)
        ensures
            e.status_code == 400,
            e.message@ == message@,
    {
        Self::new(400, message)
    }

    pub fn unauthorized(message: String) -> (e: Self)
        ensures
            e.status_code == 401,
            e.message@ == message@,
    {
        Self::new(401, message)
    }

    pub fn not_found(message: String) -> (e: Self)
        ensures
            e.status_code == 404,
            e.message@ == message@,
    {
        Self::new(404, message)
    }
}

} // verus!
