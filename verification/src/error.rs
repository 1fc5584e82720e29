use vstd::prelude::*;

verus! {

/// The error type of the `jsonwebtoken` crate.
#[verifier::external_type_specification]
#[verifier::external_body]
pub struct ExJwtError(jsonwebtoken::errors::Error);

/// Failures of the authentication primitives.
#[derive(Debug)]
pub enum AuthError {
    /// Encoding or decoding a JWT failed.
    Jwt(jsonwebtoken::errors::Error),
    /// Hashing a password failed.
    Hash,
    /// The stored password hash could not be used.
    InvalidHash,
    /// The clock is so close to the end of the calendar that a token's expiry
    /// cannot be represented.
    ExpiryOutOfRange,
}

/// The message shown for an authentication failure.
pub open spec fn auth_error_text(e: AuthError) -> Seq<char> {
    match e {
        AuthError::Jwt(_) => "échec d'encodage/décodage du JWT"@,
        AuthError::Hash => "échec de hachage du mot de passe"@,
        AuthError::InvalidHash => "format de hash invalide"@,
        AuthError::ExpiryOutOfRange => "date d'expiration hors calendrier"@,
    }
}

impl AuthError {
    /// The message shown for this failure.
    pub fn message(&self) -> (m: &'static str)
        ensures
            m@ == auth_error_text(*self),
    {
        match self {
            AuthError::Jwt(_) => "échec d'encodage/décodage du JWT",
            AuthError::Hash => "échec de hachage du mot de passe",
            AuthError::InvalidHash => "format de hash invalide",
            AuthError::ExpiryOutOfRange => "date d'expiration hors calendrier",
        }
    }
}

/// The errors that request handling reports to a client.
#[derive(Debug)]
pub enum AppError {
    NotFound,
    InvalidInput(String),
    /// The request conflicts with what is stored (an e-mail already taken).
    Conflict(String),
    Unauthorized,
    Internal,
    /// A storage failure, with the storage layer's description (logged, never shown).
    Database(String),
    /// A failure of the authentication primitives (logged, never shown).
    Jwt(AuthError),
}

/// The HTTP status answered for an error.
pub open spec fn status_of(e: AppError) -> u16 {
    match e {
        AppError::NotFound => 404,
        AppError::InvalidInput(_) => 400,
        AppError::Conflict(_) => 409,
        AppError::Unauthorized => 401,
        AppError::Internal => 500,
        AppError::Database(_) => 500,
        AppError::Jwt(_) => 500,
    }
}

/// The message put in the response body for an error. Storage and token
/// failures are answered with a generic text.
pub open spec fn public_text_of(e: AppError) -> Seq<char> {
    match e {
        AppError::NotFound => "Not found"@,
        AppError::InvalidInput(m) => m@,
        AppError::Conflict(m) => m@,
        AppError::Unauthorized => "Unauthorized"@,
        AppError::Internal => "Internal server error"@,
        AppError::Database(_) => "Database error"@,
        AppError::Jwt(_) => "Erreur interne"@,
    }
}

/// Does the error get logged before it is answered?
pub open spec fn is_logged(e: AppError) -> bool {
    e is Database || e is Jwt
}

impl AppError {
    /// The HTTP status code of the response.
    pub fn status_code(&self) -> (c: u16)
        ensures
            c == status_of(*self),
    {
        match self {
            AppError::NotFound => 404,
            AppError::InvalidInput(_) => 400,
            AppError::Conflict(_) => 409,
            AppError::Unauthorized => 401,
            AppError::Internal => 500,
            AppError::Database(_) => 500,
            AppError::Jwt(_) => 500,
        }
    }

    /// The message of the response body.
    pub fn public_message(&self) -> (m: String)
        ensures
            m@ == public_text_of(*self),
    {
        match self {
            AppError::NotFound => String::from_str("Not found"),
            AppError::InvalidInput(m) => m.clone(),
            AppError::Conflict(m) => m.clone(),
            AppError::Unauthorized => String::from_str("Unauthorized"),
            AppError::Internal => String::from_str("Internal server error"),
            AppError::Database(_) => String::from_str("Database error"),
            AppError::Jwt(_) => String::from_str("Erreur interne"),
        }
    }

    /// Is the error logged (storage and token failures) before it is answered?
    pub fn should_log(&self) -> (b: bool)
        ensures
            b == is_logged(*self),
    {
        match self {
            AppError::Database(_) | AppError::Jwt(_) => true,
            _ => false,
        }
    }
}

/// Internal failures never leak their details: every error answered with a
/// 5xx status carries one of the fixed generic messages.
pub proof fn lemma_server_errors_are_generic(e: AppError)
    requires
        status_of(e) == 500,
    ensures
        public_text_of(e) == "Internal server error"@ || public_text_of(e) == "Database error"@
            || public_text_of(e) == "Erreur interne"@,
{
}

} // verus!
