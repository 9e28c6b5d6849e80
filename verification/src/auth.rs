//! Administrator accounts: registration, login and secret rotation.
//!
//! The database and the password hasher sit outside this crate; they
//! hand their outcomes in as plain values, and the functions here make
//! every decision the account workflows call for: which lookup to run,
//! whether a registration insert collided or must surface an error, and
//! what a login attempt returns.

use vstd::prelude::*;

use crate::errors::{spec_from_creds, CredsErrorKind, ServiceError};
use crate::ident::{spec_is_collision, DbErrorInfo, AllocStep, is_collision};
use crate::middleware::{url_encoded, url_encode, GetLoginRoute};
use crate::text::{contains_char, contains_str, spec_has_char, spec_has_substr, str_eq};

verus! {

/// Uniqueness constraint on the admin's random secret: a collision here
/// is absorbed by drawing a fresh secret.
pub const ADMIN_SECRET_CONSTRAINT: &'static str = "survey_admins_secret_key";

/// A registration request.
#[derive(Clone, Debug)]
pub struct Register {
    pub username: String,
    pub password: String,
    pub confirm_password: String,
    pub email: Option<String>,
}

/// A login request; the `login` field accepts a username or an email.
#[derive(Clone, Debug)]
pub struct Login {
    pub login: String,
    pub password: String,
}

/// A bare password, as sudo-style confirmation forms post it.
#[derive(Clone, Debug)]
pub struct Password {
    pub password: String,
}

/// An admin's secret token.
#[derive(Clone, Debug)]
pub struct Secret {
    pub secret: String,
}

/// Whether a login identifier is an email: it contains an `@`.
pub fn login_is_email(login: &str) -> (r: bool)
    ensures
        r == spec_has_char(login@, '@'),
{
    contains_char(login, '@')
}

/// What the account lookup reported, as plain values.
pub enum AccountLookup {
    /// the account's username and stored password hash
    Found { name: String, password_hash: String },
    /// no account under that name or email
    NotFound,
    /// the lookup itself failed
    LookupError,
}

/// What a login attempt returns, given the lookup's outcome and the
/// password verifier's verdict on the stored hash: the account name on
/// success, the wrong-password error on a failed verification, the
/// not-found error when no account matched, and an internal error when
/// the lookup or the verifier itself failed.
pub fn login_decide(lookup: &AccountLookup, verify: Result<bool, CredsErrorKind>) -> (r: Result<
    String,
    ServiceError,
>)
    ensures
        match lookup {
            AccountLookup::Found { name, password_hash: _ } => match verify {
                Ok(true) => r matches Ok(n) && n@ == name@,
                Ok(false) => r matches Err(e) && e == ServiceError::WrongPassword,
                Err(k) => r matches Err(e) && e == spec_from_creds(k),
            },
            AccountLookup::NotFound => r matches Err(e) && e == ServiceError::AccountNotFound,
            AccountLookup::LookupError => r matches Err(e) && e
                == ServiceError::InternalServerError,
        },
{
    match lookup {
        AccountLookup::Found { name, password_hash: _ } => match verify {
            Ok(true) => Ok(name.clone()),
            Ok(false) => Err(ServiceError::WrongPassword),
            Err(k) => Err(ServiceError::from_creds(k)),
        },
        AccountLookup::NotFound => Err(ServiceError::AccountNotFound),
        AccountLookup::LookupError => Err(ServiceError::InternalServerError),
    }
}

/// The checks a registration passes before touching the store: the
/// server must be open for registration and the two passwords must
/// agree.
pub fn register_precheck(allow_registration: bool, payload: &Register) -> (r: Result<
    (),
    ServiceError,
>)
    ensures
        !allow_registration ==> (r matches Err(e) && e == ServiceError::ClosedForRegistration),
        allow_registration && payload.password@ != payload.confirm_password@ ==> (r matches Err(e)
            && e == ServiceError::PasswordsDontMatch),
        allow_registration && payload.password@ == payload.confirm_password@ ==> (r matches Ok(_)),
{
    if !allow_registration {
        return Err(ServiceError::ClosedForRegistration);
    }
    if !str_eq(payload.password.as_str(), payload.confirm_password.as_str()) {
        return Err(ServiceError::PasswordsDontMatch);
    }
    Ok(())
}

/// What the registration insert does with a database error.
pub open spec fn spec_register_db_step(err: &DbErrorInfo) -> AllocStep {
    if err.code_view() == Option::Some("23505"@) {
        if spec_has_substr(err.message@, "survey_admins_name_key"@) {
            AllocStep::Abort(ServiceError::UsernameTaken)
        } else if spec_has_substr(err.message@, "survey_admins_email_key"@) {
            AllocStep::Abort(ServiceError::EmailTaken)
        } else if spec_has_substr(err.message@, "survey_admins_secret_key"@) {
            AllocStep::RetryFresh
        } else {
            AllocStep::Abort(ServiceError::InternalServerError)
        }
    } else {
        AllocStep::Abort(ServiceError::InternalServerError)
    }
}

/// Classifies a failed registration insert.  The admins table carries
/// three uniqueness constraints: a taken username or email is the
/// caller's error, while a secret collision is absorbed by drawing a
/// fresh secret; any other failure is internal.
pub fn register_db_step(err: &DbErrorInfo) -> (r: AllocStep)
    ensures
        r == spec_register_db_step(err),
{
    let code_is_unique = match &err.code {
        Option::Some(c) => str_eq(c.as_str(), "23505"),
        Option::None => false,
    };
    if code_is_unique {
        if contains_str(err.message.as_str(), "survey_admins_name_key") {
            AllocStep::Abort(ServiceError::UsernameTaken)
        } else if contains_str(err.message.as_str(), "survey_admins_email_key") {
            AllocStep::Abort(ServiceError::EmailTaken)
        } else if contains_str(err.message.as_str(), "survey_admins_secret_key") {
            AllocStep::RetryFresh
        } else {
            AllocStep::Abort(ServiceError::InternalServerError)
        }
    } else {
        AllocStep::Abort(ServiceError::InternalServerError)
    }
}

/// Classifies a failed secret-rotation update: retry on a secret
/// collision, abort otherwise.
pub fn secret_update_step(err: &DbErrorInfo) -> (r: AllocStep)
    ensures
        spec_is_collision(err, "survey_admins_secret_key"@) ==> r matches AllocStep::RetryFresh,
        !spec_is_collision(err, "survey_admins_secret_key"@) ==> (r matches AllocStep::Abort(e)
            && e == ServiceError::InternalServerError),
{
    if is_collision(err, ADMIN_SECRET_CONSTRAINT) {
        AllocStep::RetryFresh
    } else {
        AllocStep::Abort(ServiceError::InternalServerError)
    }
}

/// Route table of the admin authentication API.
pub struct Auth {
    pub logout: &'static str,
    pub login: &'static str,
    pub register: &'static str,
}

impl Auth {
    /// The fixed admin authentication routes.
    pub fn new() -> (r: Auth)
        ensures
            r.login@ == "/admin/api/v1/signin"@,
            r.logout@ == "/admin/logout"@,
            r.register@ == "/admin/api/v1/signup"@,
    {
        let login = "/admin/api/v1/signin";
        let logout = "/admin/logout";
        let register = "/admin/api/v1/signup";
        Auth { logout, login, register }
    }
}

impl GetLoginRoute for Auth {
    open spec fn spec_login_route(&self, src: Option<Seq<char>>) -> Seq<char> {
        match src {
            Option::Some(s) => self.register@ + "?redirect_to="@ + url_encoded(s),
            Option::None => self.register@,
        }
    }

    fn get_login_route(&self, src: Option<&str>) -> (r: String) {
        match src {
            Option::Some(redirect_to) => {
                let mut out = String::new();
                out.append(self.register);
                out.append("?redirect_to=");
                let encoded = url_encode(redirect_to);
                out.append(encoded.as_str());
                out
            },
            Option::None => {
                let mut out = String::new();
                out.append(self.register);
                out
            },
        }
    }
}

} // verus!
