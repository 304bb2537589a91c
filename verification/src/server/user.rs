//! The decisions of the account routes: who is signed in, whether a
//! signup may go on, and whether a login succeeds.

use vstd::prelude::*;
use vstd::string::*;
use crate::server::errors::ApiErrors;
use crate::server::responses::IMPOSSIBLE_CONDITION;
use crate::server::validation::user::UsernameResult;
use crate::text::{joined, str_eq};

verus! {

/// The name shown for a request without an identity.
pub const NOT_LOGGED_IN: &'static str = "NoLI";

/// The name that the account root reports: the identity's id when it can
/// be read, `NoLI` without an identity, and an authentication-cookie error
/// (with the reason) when the identity cannot be read.
pub fn signed_in_name(identity: Option<Result<String, String>>) -> (r: Result<String, ApiErrors>)
    ensures
        match identity {
            None => r matches Ok(name) && name@ == NOT_LOGGED_IN@,
            Some(Ok(id)) => r matches Ok(name) && name@ == id@,
            Some(Err(reason)) => r matches Err(ApiErrors::AuthenticationCookieError(m)) && m@
                == reason@,
        },
{
    match identity {
        None => Ok(String::from_str(NOT_LOGGED_IN)),
        Some(Ok(id)) => Ok(id),
        Some(Err(reason)) => Err(ApiErrors::AuthenticationCookieError(reason)),
    }
}

/// Whether `r` is how a signup answers the username check's outcome:
/// `None` lets the signup go on (the name passed); otherwise the error
/// that refuses it.
pub open spec fn is_signup_refusal(check: Result<UsernameResult, UsernameResult>, r: Option<ApiErrors>) -> bool {
    match check {
        Ok(UsernameResult::Passed) => r is None,
        Err(UsernameResult::DatabaseError(e)) => r matches Some(ApiErrors::DatabaseError(m))
            && m@ == "Error while checking username availability: "@ + e@,
        Err(UsernameResult::FowlLanguage) | Err(UsernameResult::SqlInjection) => r matches Some(
            ApiErrors::DisallowedUsername(m),
        ) && m@ == "This username is disallowed"@,
        Err(UsernameResult::Taken) => r matches Some(ApiErrors::UnavailableUsername(m)) && m@
            == "This username is unavailable"@,
        _ => r matches Some(ApiErrors::UnknownError(m)) && m@ == IMPOSSIBLE_CONDITION@,
    }
}

/// How a signup answers the username check's outcome: `None` when the name
/// passed and the account may be created, otherwise the refusal.
pub fn signup_refusal(check: &Result<UsernameResult, UsernameResult>) -> (r: Option<ApiErrors>)
    ensures
        is_signup_refusal(*check, r),
{
    match check {
        Ok(UsernameResult::Passed) => None,
        Err(UsernameResult::DatabaseError(e)) => Some(
            ApiErrors::DatabaseError(joined("Error while checking username availability: ", e.as_str())),
        ),
        Err(UsernameResult::FowlLanguage) | Err(UsernameResult::SqlInjection) => Some(
            ApiErrors::DisallowedUsername(String::from_str("This username is disallowed")),
        ),
        Err(UsernameResult::Taken) => Some(
            ApiErrors::UnavailableUsername(String::from_str("This username is unavailable")),
        ),
        _ => Some(ApiErrors::UnknownError(String::from_str(IMPOSSIBLE_CONDITION))),
    }
}

/// The refusal of a password whose kind could not be told.
pub fn unhashed_password() -> (r: ApiErrors)
    ensures
        r matches ApiErrors::UnhashedPassword(m) && m@
            == "The password you sent was either unhashed or not supported"@,
{
    ApiErrors::UnhashedPassword(String::from_str("The password you sent was either unhashed or not supported"))
}

/// A login succeeds exactly when the sent password equals the stored one;
/// otherwise it is refused as invalid credentials.
pub fn login_check(sent: &str, stored: &str) -> (r: Result<(), ApiErrors>)
    ensures
        r is Ok <==> sent@ == stored@,
        r matches Err(e) ==> e matches ApiErrors::InvalidCredentials(m) && m@
            == "Invalid Username/Password Combo"@,
{
    if str_eq(sent, stored) {
        Ok(())
    } else {
        Err(ApiErrors::InvalidCredentials(String::from_str("Invalid Username/Password Combo")))
    }
}

} // verus!
