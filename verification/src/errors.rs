//! Service error taxonomy.
//!
//! Every failure the core can hand back to a caller is one of these
//! variants.  The HTTP layer outside this crate maps each variant to a
//! status code through [`ServiceError::status_code_u16`] and to a body
//! through [`ServiceError::message`].

use vstd::prelude::*;

verus! {

#[derive(Clone, Copy, Debug, PartialEq, Eq, Structural)]
pub enum ServiceError {
    InternalServerError,
    /// the username is already taken
    UsernameTaken,
    ClosedForRegistration,
    /// the email is already taken
    EmailTaken,
    NotAnEmail,
    NotAnId,
    WrongPassword,
    AccountNotFound,
    /// the value contains profanity
    ProfainityError,
    /// the value contains blacklisted words
    BlacklistError,
    /// the value violates the UsernameCaseMapped profile
    UsernameCaseMappedError,
    PasswordTooShort,
    PasswordTooLong,
    PasswordsDontMatch,
    /// a difficulty field was not a decimal number
    NotANumber,
    CampaignDoesntExist,
}

/// The user-facing description of each error.
pub open spec fn spec_message(e: ServiceError) -> Seq<char> {
    match e {
        ServiceError::InternalServerError => "internal server error"@,
        ServiceError::UsernameTaken => "Username not available"@,
        ServiceError::ClosedForRegistration => "This server is is closed for registration. Contact admin if this is unexpected"@,
        ServiceError::EmailTaken => "Email not available"@,
        ServiceError::NotAnEmail => "The value you entered for email is not an email"@,
        ServiceError::NotAnId => "The value you entered for campaign id is not a valid campaign ID"@,
        ServiceError::WrongPassword => "Wrong password"@,
        ServiceError::AccountNotFound => "Account not found"@,
        ServiceError::ProfainityError => "Can't allow profanity in usernames"@,
        ServiceError::BlacklistError => "Username contains blacklisted words"@,
        ServiceError::UsernameCaseMappedError => "username_case_mapped violation"@,
        ServiceError::PasswordTooShort => "Passsword too short"@,
        ServiceError::PasswordTooLong => "Username too long"@,
        ServiceError::PasswordsDontMatch => "Passwords don't match"@,
        ServiceError::NotANumber => "Unable to parse difficulty, expected a number"@,
        ServiceError::CampaignDoesntExist => "Campaign doesn't exist"@,
    }
}

/// The HTTP status code each error maps to.
pub open spec fn spec_status_code(e: ServiceError) -> u16 {
    match e {
        ServiceError::ClosedForRegistration => 403,
        ServiceError::InternalServerError => 500,
        ServiceError::UsernameTaken => 400,
        ServiceError::EmailTaken => 400,
        ServiceError::NotAnEmail => 400,
        ServiceError::NotAnId => 400,
        ServiceError::WrongPassword => 401,
        ServiceError::AccountNotFound => 404,
        ServiceError::ProfainityError => 400,
        ServiceError::BlacklistError => 400,
        ServiceError::UsernameCaseMappedError => 400,
        ServiceError::PasswordTooShort => 400,
        ServiceError::PasswordTooLong => 400,
        ServiceError::PasswordsDontMatch => 400,
        ServiceError::NotANumber => 400,
        ServiceError::CampaignDoesntExist => 404,
    }
}

impl ServiceError {
    /// The user-facing description of this error.
    pub fn message(&self) -> (r: String)
        ensures
            r@ == spec_message(*self),
    {
        let s: &str = match self {
            ServiceError::InternalServerError => "internal server error",
            ServiceError::UsernameTaken => "Username not available",
            ServiceError::ClosedForRegistration => "This server is is closed for registration. Contact admin if this is unexpected",
            ServiceError::EmailTaken => "Email not available",
            ServiceError::NotAnEmail => "The value you entered for email is not an email",
            ServiceError::NotAnId => "The value you entered for campaign id is not a valid campaign ID",
            ServiceError::WrongPassword => "Wrong password",
            ServiceError::AccountNotFound => "Account not found",
            ServiceError::ProfainityError => "Can't allow profanity in usernames",
            ServiceError::BlacklistError => "Username contains blacklisted words",
            ServiceError::UsernameCaseMappedError => "username_case_mapped violation",
            ServiceError::PasswordTooShort => "Passsword too short",
            ServiceError::PasswordTooLong => "Username too long",
            ServiceError::PasswordsDontMatch => "Passwords don't match",
            ServiceError::NotANumber => "Unable to parse difficulty, expected a number",
            ServiceError::CampaignDoesntExist => "Campaign doesn't exist",
        };
        let mut out = String::new();
        out.append(s);
        out
    }

    /// The HTTP status code of this error.
    pub fn status_code_u16(&self) -> (r: u16)
        ensures
            r == spec_status_code(*self),
    {
        match self {
            ServiceError::ClosedForRegistration => 403,
            ServiceError::InternalServerError => 500,
            ServiceError::UsernameTaken => 400,
            ServiceError::EmailTaken => 400,
            ServiceError::NotAnEmail => 400,
            ServiceError::NotAnId => 400,
            ServiceError::WrongPassword => 401,
            ServiceError::AccountNotFound => 404,
            ServiceError::ProfainityError => 400,
            ServiceError::BlacklistError => 400,
            ServiceError::UsernameCaseMappedError => 400,
            ServiceError::PasswordTooShort => 400,
            ServiceError::PasswordTooLong => 400,
            ServiceError::PasswordsDontMatch => 400,
            ServiceError::NotANumber => 400,
            ServiceError::CampaignDoesntExist => 404,
        }
    }
}

/// JSON body shape the HTTP layer sends an error as.
#[derive(Clone, Debug)]
pub struct ErrorToResponse {
    pub error: String,
}

/// The credential validator's failure modes, as plain values.  The glue
/// outside this crate maps the validator crate's own error enum onto
/// this one, variant for variant.
#[derive(Clone, Copy, Debug, PartialEq, Eq, Structural)]
pub enum CredsErrorKind {
    UsernameCaseMappedError,
    ProfainityError,
    BlacklistError,
    NotAnEmail,
    Argon2Error,
    PasswordTooLong,
    PasswordTooShort,
}

/// How each credential-validation failure surfaces as a service error.
pub open spec fn spec_from_creds(k: CredsErrorKind) -> ServiceError {
    match k {
        CredsErrorKind::UsernameCaseMappedError => ServiceError::UsernameCaseMappedError,
        CredsErrorKind::ProfainityError => ServiceError::ProfainityError,
        CredsErrorKind::BlacklistError => ServiceError::BlacklistError,
        CredsErrorKind::NotAnEmail => ServiceError::NotAnEmail,
        CredsErrorKind::Argon2Error => ServiceError::InternalServerError,
        CredsErrorKind::PasswordTooLong => ServiceError::PasswordTooLong,
        CredsErrorKind::PasswordTooShort => ServiceError::PasswordTooShort,
    }
}

impl ServiceError {
    /// Maps a credential-validation failure to its service error.
    pub fn from_creds(k: CredsErrorKind) -> (r: ServiceError)
        ensures
            r == spec_from_creds(k),
    {
        match k {
            CredsErrorKind::UsernameCaseMappedError => ServiceError::UsernameCaseMappedError,
            CredsErrorKind::ProfainityError => ServiceError::ProfainityError,
            CredsErrorKind::BlacklistError => ServiceError::BlacklistError,
            CredsErrorKind::NotAnEmail => ServiceError::NotAnEmail,
            CredsErrorKind::Argon2Error => ServiceError::InternalServerError,
            CredsErrorKind::PasswordTooLong => ServiceError::PasswordTooLong,
            CredsErrorKind::PasswordTooShort => ServiceError::PasswordTooShort,
        }
    }
}

pub type ServiceResult<V> = Result<V, ServiceError>;

} // verus!
