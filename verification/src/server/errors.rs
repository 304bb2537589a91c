//! The errors that the account server answers with: their
//! machine-readable names, their messages and their HTTP status codes.

use vstd::prelude::*;
use vstd::string::*;
use crate::text::{decimal, joined, push_decimal};

verus! {

/// The body of an error answer: a short machine-readable name and a
/// human-readable description.
pub struct ApiError<'a> {
    pub error: &'a str,
    pub description: String,
}

/// Every error that the account server reports to a client.
#[derive(Debug)]
pub enum ApiErrors {
    UnknownError(String),
    Validation(String),
    NotFound(String),
    DatabaseError(String),
    InvalidCredentials(String),
    UnavailableUsername(String),
    DisallowedUsername(String),
    UnhashedPassword(String),
    AuthenticationCookieError(String),
    RateLimitError(u128, u32),
    CustomAuthentication(String),
    Unauthorized,
}

/// The position of the variant in the declaration of `ApiErrors`.
pub open spec fn variant_index(e: ApiErrors) -> int {
    match e {
        ApiErrors::UnknownError(..) => 0,
        ApiErrors::Validation(..) => 1,
        ApiErrors::NotFound(..) => 2,
        ApiErrors::DatabaseError(..) => 3,
        ApiErrors::InvalidCredentials(..) => 4,
        ApiErrors::UnavailableUsername(..) => 5,
        ApiErrors::DisallowedUsername(..) => 6,
        ApiErrors::UnhashedPassword(..) => 7,
        ApiErrors::AuthenticationCookieError(..) => 8,
        ApiErrors::RateLimitError(..) => 9,
        ApiErrors::CustomAuthentication(..) => 10,
        ApiErrors::Unauthorized => 11,
    }
}

/// The machine-readable name of an error.
pub open spec fn error_name(e: ApiErrors) -> Seq<char> {
    match e {
        ApiErrors::UnknownError(..) => "unknown_error"@,
        ApiErrors::Validation(..) => "invalid_input"@,
        ApiErrors::NotFound(..) => "not_found"@,
        ApiErrors::DatabaseError(..) => "database_error"@,
        ApiErrors::InvalidCredentials(..) => "invalid_credentials"@,
        ApiErrors::UnavailableUsername(..) => "unavailable_username"@,
        ApiErrors::DisallowedUsername(..) => "disallowed_username"@,
        ApiErrors::UnhashedPassword(..) => "unhashed_password"@,
        ApiErrors::AuthenticationCookieError(..) => "auth_cookie_error"@,
        ApiErrors::RateLimitError(..) => "rate_limited"@,
        ApiErrors::CustomAuthentication(..) => "custom_auth"@,
        ApiErrors::Unauthorized => "unauthorized"@,
    }
}

/// The human-readable message of an error. Only the validation, lookup,
/// database, rate-limit and authentication errors show their fields.
pub open spec fn message_text(e: ApiErrors) -> Seq<char> {
    match e {
        ApiErrors::UnknownError(..) => "An unknown error occurred."@,
        ApiErrors::Validation(s) => "Error while validating input: "@ + s@,
        ApiErrors::NotFound(s) => "Could not find: "@ + s@,
        ApiErrors::DatabaseError(s) => s@,
        ApiErrors::InvalidCredentials(..) => "Invalid Username/Password Combo"@,
        ApiErrors::UnavailableUsername(..) => "This username is taken"@,
        ApiErrors::DisallowedUsername(..) => "This username is disallowed"@,
        ApiErrors::UnhashedPassword(..) => "Sent an unhashed password"@,
        ApiErrors::AuthenticationCookieError(..) => "Error with Authentication Cookie"@,
        ApiErrors::RateLimitError(wait, limit) => "You are being rate-limited. Please wait "@
            + decimal(wait as nat) + " milliseconds. 0/"@ + decimal(limit as nat)
            + " remaining."@,
        ApiErrors::CustomAuthentication(s) => "Authentication Error: "@ + s@,
        ApiErrors::Unauthorized => "You are unauthorized to access this content."@,
    }
}

/// The HTTP status code that answers an error.
pub open spec fn status_of(e: ApiErrors) -> u16 {
    match e {
        ApiErrors::UnknownError(..) => 500,
        ApiErrors::Validation(..) => 400,
        ApiErrors::NotFound(..) => 404,
        ApiErrors::DatabaseError(..) => 500,
        ApiErrors::InvalidCredentials(..) => 401,
        ApiErrors::UnavailableUsername(..) => 400,
        ApiErrors::DisallowedUsername(..) => 400,
        ApiErrors::UnhashedPassword(..) => 400,
        ApiErrors::AuthenticationCookieError(..) => 400,
        ApiErrors::RateLimitError(..) => 429,
        ApiErrors::CustomAuthentication(..) => 401,
        ApiErrors::Unauthorized => 401,
    }
}

impl ApiErrors {
    /// The machine-readable name of this error.
    pub fn error_name(&self) -> (r: &'static str)
        ensures
            r@ == error_name(*self),
    {
        match self {
            ApiErrors::UnknownError(..) => "unknown_error",
            ApiErrors::Validation(..) => "invalid_input",
            ApiErrors::NotFound(..) => "not_found",
            ApiErrors::DatabaseError(..) => "database_error",
            ApiErrors::InvalidCredentials(..) => "invalid_credentials",
            ApiErrors::UnavailableUsername(..) => "unavailable_username",
            ApiErrors::DisallowedUsername(..) => "disallowed_username",
            ApiErrors::UnhashedPassword(..) => "unhashed_password",
            ApiErrors::AuthenticationCookieError(..) => "auth_cookie_error",
            ApiErrors::RateLimitError(..) => "rate_limited",
            ApiErrors::CustomAuthentication(..) => "custom_auth",
            ApiErrors::Unauthorized => "unauthorized",
        }
    }

    /// The human-readable message of this error.
    pub fn message(&self) -> (r: String)
        ensures
            r@ == message_text(*self),
    {
        match self {
            ApiErrors::UnknownError(..) => String::from_str("An unknown error occurred."),
            ApiErrors::Validation(s) => joined("Error while validating input: ", s.as_str()),
            ApiErrors::NotFound(s) => joined("Could not find: ", s.as_str()),
            ApiErrors::DatabaseError(s) => s.clone(),
            ApiErrors::InvalidCredentials(..) => String::from_str(
                "Invalid Username/Password Combo",
            ),
            ApiErrors::UnavailableUsername(..) => String::from_str("This username is taken"),
            ApiErrors::DisallowedUsername(..) => String::from_str("This username is disallowed"),
            ApiErrors::UnhashedPassword(..) => String::from_str("Sent an unhashed password"),
            ApiErrors::AuthenticationCookieError(..) => String::from_str(
                "Error with Authentication Cookie",
            ),
            ApiErrors::RateLimitError(wait, limit) => {
                let mut out = String::from_str("You are being rate-limited. Please wait ");
                push_decimal(&mut out, *wait);
                out.append(" milliseconds. 0/");
                push_decimal(&mut out, *limit as u128);
                out.append(" remaining.");
                out
            },
            ApiErrors::CustomAuthentication(s) => joined("Authentication Error: ", s.as_str()),
            ApiErrors::Unauthorized => String::from_str(
                "You are unauthorized to access this content.",
            ),
        }
    }

    /// The body of the answer to this error: its name and its message.
    pub fn as_api_error<'a>(&self) -> (r: ApiError<'a>)
        ensures
            r.error@ == error_name(*self),
            r.description@ == message_text(*self),
    {
        ApiError { error: self.error_name(), description: self.message() }
    }

    /// The HTTP status code that answers this error.
    pub fn status_code(&self) -> (r: u16)
        ensures
            r == status_of(*self),
    {
        match self {
            ApiErrors::UnknownError(..) => 500,
            ApiErrors::Validation(..) => 400,
            ApiErrors::NotFound(..) => 404,
            ApiErrors::DatabaseError(..) => 500,
            ApiErrors::InvalidCredentials(..) => 401,
            ApiErrors::UnavailableUsername(..) => 400,
            ApiErrors::DisallowedUsername(..) => 400,
            ApiErrors::UnhashedPassword(..) => 400,
            ApiErrors::AuthenticationCookieError(..) => 400,
            ApiErrors::RateLimitError(..) => 429,
            ApiErrors::CustomAuthentication(..) => 401,
            ApiErrors::Unauthorized => 401,
        }
    }
}

/// Every error is answered with a client-error or server-error status.
pub proof fn lemma_status_is_error_class(e: ApiErrors)
    ensures
        400 <= status_of(e) <= 599,
{
}

/// Errors of different kinds carry different names.
pub proof fn lemma_error_names_distinct(a: ApiErrors, b: ApiErrors)
    requires
        variant_index(a) != variant_index(b),
    ensures
        error_name(a) != error_name(b),
{
    reveal_strlit("unknown_error");
    reveal_strlit("invalid_input");
    reveal_strlit("not_found");
    reveal_strlit("database_error");
    reveal_strlit("invalid_credentials");
    reveal_strlit("unavailable_username");
    reveal_strlit("disallowed_username");
    reveal_strlit("unhashed_password");
    reveal_strlit("auth_cookie_error");
    reveal_strlit("rate_limited");
    reveal_strlit("custom_auth");
    reveal_strlit("unauthorized");
    if error_name(a) == error_name(b) {
        let (na, nb) = (error_name(a), error_name(b));
        assert(na.len() == nb.len() && na[0] == nb[0]);
        assert(variant_index(a) == variant_index(b));
    }
}

} // verus!
