//! Error taxonomy of the identity core, with the HTTP-style status class
//! and the human-readable message that the presentation layers surface.

use vstd::prelude::*;

verus! {

/// The exact policy defect found in a signup request, in the order the
/// checks are applied: username shape first, then password shape.
#[derive(Clone, Copy, Debug, PartialEq, Eq, Structural)]
pub enum ValidationIssue {
    /// Username shorter than 3 or longer than 20 characters.
    UsernameLength,
    /// Username contains a character outside ASCII letters, digits, underscore.
    UsernameCharset,
    /// Password shorter than 8 characters.
    PasswordTooShort,
    /// Password longer than 72 characters.
    PasswordTooLong,
    /// Password lacks a lowercase letter, an uppercase letter, or a digit.
    PasswordComplexity,
}

/// Every failure the identity core can report. Authentication failures are
/// deliberately undifferentiated: a wrong password and an unknown username
/// both map to `InvalidCredentials`, and a missing header and an unresolvable
/// token both map to `AuthenticationRequired`.
#[derive(Clone, Copy, Debug, PartialEq, Eq, Structural)]
pub enum AuthError {
    /// Caller-fixable input defect, reported verbatim.
    Validation(ValidationIssue),
    /// Username already exists.
    UsernameTaken,
    /// Unknown username or wrong password; the two are indistinguishable.
    InvalidCredentials,
    /// Missing, malformed, or unresolvable bearer credential.
    AuthenticationRequired,
    /// Valid identity without the admin privilege.
    AdminRequired,
    /// An admin tried to delete their own account.
    SelfDeletionBlocked,
    /// An admin tried to change their own admin flag.
    SelfRoleChangeBlocked,
    /// Valid identity that does not own the addressed resource.
    NotOwner,
    /// The addressed user does not exist.
    TargetNotFound,
    /// Storage-engine fault, surfaced opaquely.
    Storage,
    /// Credential-codec fault, surfaced opaquely.
    Hashing,
}

/// The HTTP-style status class of an error.
pub open spec fn spec_error_status(e: AuthError) -> u16 {
    match e {
        AuthError::Validation(_) => 400,
        AuthError::UsernameTaken => 409,
        AuthError::InvalidCredentials => 401,
        AuthError::AuthenticationRequired => 401,
        AuthError::AdminRequired => 403,
        AuthError::SelfDeletionBlocked => 400,
        AuthError::SelfRoleChangeBlocked => 400,
        AuthError::NotOwner => 403,
        AuthError::TargetNotFound => 404,
        AuthError::Storage => 500,
        AuthError::Hashing => 500,
    }
}

/// The message that the presentation layers report for an error.
pub open spec fn spec_error_message(e: AuthError) -> Seq<char> {
    match e {
        AuthError::Validation(ValidationIssue::UsernameLength) => {
            "Username must be between 3 and 20 characters"@
        },
        AuthError::Validation(ValidationIssue::UsernameCharset) => {
            "Username can only contain letters, numbers, and underscores"@
        },
        AuthError::Validation(ValidationIssue::PasswordTooShort) => {
            "Password must be at least 8 characters"@
        },
        AuthError::Validation(ValidationIssue::PasswordTooLong) => {
            "Password must be at most 72 characters"@
        },
        AuthError::Validation(ValidationIssue::PasswordComplexity) => {
            "Password must contain at least one lowercase letter, one uppercase letter, and one number"@
        },
        AuthError::UsernameTaken => "Username already exists"@,
        AuthError::InvalidCredentials => "Invalid username or password"@,
        AuthError::AuthenticationRequired => "Authentication required"@,
        AuthError::AdminRequired => "Admin access required"@,
        AuthError::SelfDeletionBlocked => "Cannot delete yourself"@,
        AuthError::SelfRoleChangeBlocked => "Cannot change your own admin status"@,
        AuthError::NotOwner => "Access denied"@,
        AuthError::TargetNotFound => "User not found"@,
        AuthError::Storage => "Database error"@,
        AuthError::Hashing => "Password hashing error"@,
    }
}

impl AuthError {
    /// The HTTP-style status class: 400 validation and blocked self-action,
    /// 401 authentication, 403 privilege, 404 missing target, 409 conflict,
    /// 500 internal fault.
    pub fn status(&self) -> (s: u16)
        ensures
            s == spec_error_status(*self),
    {
        match self {
            AuthError::Validation(_) => 400,
            AuthError::UsernameTaken => 409,
            AuthError::InvalidCredentials => 401,
            AuthError::AuthenticationRequired => 401,
            AuthError::AdminRequired => 403,
            AuthError::SelfDeletionBlocked => 400,
            AuthError::SelfRoleChangeBlocked => 400,
            AuthError::NotOwner => 403,
            AuthError::TargetNotFound => 404,
            AuthError::Storage => 500,
            AuthError::Hashing => 500,
        }
    }

    /// The human-readable reason, identical for the two authentication
    /// failure shapes so that nothing can be enumerated from it.
    pub fn message(&self) -> (m: String)
        ensures
            m@ == spec_error_message(*self),
    {
        match self {
            AuthError::Validation(ValidationIssue::UsernameLength) => {
                String::from_str("Username must be between 3 and 20 characters")
            },
            AuthError::Validation(ValidationIssue::UsernameCharset) => {
                String::from_str("Username can only contain letters, numbers, and underscores")
            },
            AuthError::Validation(ValidationIssue::PasswordTooShort) => {
                String::from_str("Password must be at least 8 characters")
            },
            AuthError::Validation(ValidationIssue::PasswordTooLong) => {
                String::from_str("Password must be at most 72 characters")
            },
            AuthError::Validation(ValidationIssue::PasswordComplexity) => {
                String::from_str(
                    "Password must contain at least one lowercase letter, one uppercase letter, and one number",
                )
            },
            AuthError::UsernameTaken => String::from_str("Username already exists"),
            AuthError::InvalidCredentials => String::from_str("Invalid username or password"),
            AuthError::AuthenticationRequired => String::from_str("Authentication required"),
            AuthError::AdminRequired => String::from_str("Admin access required"),
            AuthError::SelfDeletionBlocked => String::from_str("Cannot delete yourself"),
            AuthError::SelfRoleChangeBlocked => {
                String::from_str("Cannot change your own admin status")
            },
            AuthError::NotOwner => String::from_str("Access denied"),
            AuthError::TargetNotFound => String::from_str("User not found"),
            AuthError::Storage => String::from_str("Database error"),
            AuthError::Hashing => String::from_str("Password hashing error"),
        }
    }
}

} // verus!
