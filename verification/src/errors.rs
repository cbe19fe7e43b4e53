use vstd::prelude::*;

verus! {

/// Errors reported by a user directory backend.
#[derive(Clone, Copy, Debug, PartialEq, Eq, Structural)]
pub enum UserStoreError {
    UserAlreadyExists,
    UserNotFound,
    InvalidCredentials,
    InvalidEmail,
    UnexpectedError,
}

/// Errors reported by a revocation ledger backend.
#[derive(Clone, Copy, Debug, PartialEq, Eq, Structural)]
pub enum BannedTokenStoreError {
    TokenAlreadyExists,
    BannedToken,
    UnexpectedError,
}

/// Errors reported by a pending-challenge store backend.
#[derive(Clone, Copy, Debug, PartialEq, Eq, Structural)]
pub enum TwoFACodeStoreError {
    LoginAttemptIdNotFound,
    UnexpectedError,
}

/// The closed error taxonomy that the authentication engine reports to its
/// boundary. Store and codec errors are re-tagged into this set and never
/// leak past the engine.
#[derive(Clone, Copy, Debug, PartialEq, Eq, Structural)]
pub enum AuthAPIError {
    /// Malformed email, password, challenge id or code: the caller's input
    /// has the wrong shape, distinguishable from an authentication outcome.
    InvalidInput,
    /// Wrong password, unknown email, or a wrong, expired or absent second
    /// factor: deliberately indistinguishable from one another.
    IncorrectCredentials,
    /// A duplicate signup, or a second logout of the same credential.
    Conflict,
    /// No session token was presented at all.
    MissingCredential,
    /// The session token is malformed, expired or revoked.
    InvalidCredential,
    /// An internal storage or crypto failure.
    UnexpectedError,
}

/// The boundary's serializable error payload; its body is one message string.
pub struct ErrorResponse {
    pub error: String,
}

} // verus!
