//! The errors that the API service answers with: their machine-readable
//! names, their human-readable messages and their HTTP status codes.

use vstd::prelude::*;
use vstd::string::*;
use crate::text::{decimal, joined, push_decimal};

verus! {

/// The body of an error answer: a short machine-readable name and a
/// human-readable description.
pub struct ApiError<'a> {
    pub error: &'a str,
    pub description: String,
}

/// Every error that the API service reports to a client.
#[derive(Debug)]
pub enum ApiErrors<'a> {
    DummyError(&'a String),
    UnknownError(String),
    Validation(String),
    NotFound(String, String),
    DatabaseError(String),
    InvalidCredentials,
    UnavailableUsername(String),
    DisallowedUsername(String),
    UnhashedPassword,
    AuthenticationCookieError,
    RateLimitError(u128, u32),
    AuthenticationError(String),
    Unauthorized,
    WebhookError(String),
    GDPRRegion,
}

/// The position of the variant in the declaration of `ApiErrors`.
pub open spec fn variant_index(e: ApiErrors) -> int {
    match e {
        ApiErrors::DummyError(..) => 0,
        ApiErrors::UnknownError(..) => 1,
        ApiErrors::Validation(..) => 2,
        ApiErrors::NotFound(..) => 3,
        ApiErrors::DatabaseError(..) => 4,
        ApiErrors::InvalidCredentials => 5,
        ApiErrors::UnavailableUsername(..) => 6,
        ApiErrors::DisallowedUsername(..) => 7,
        ApiErrors::UnhashedPassword => 8,
        ApiErrors::AuthenticationCookieError => 9,
        ApiErrors::RateLimitError(..) => 10,
        ApiErrors::AuthenticationError(..) => 11,
        ApiErrors::Unauthorized => 12,
        ApiErrors::WebhookError(..) => 13,
        ApiErrors::GDPRRegion => 14,
    }
}

/// The machine-readable name of an error.
pub open spec fn error_name(e: ApiErrors) -> Seq<char> {
    match e {
        ApiErrors::DummyError(..) => "dummy_error"@,
        ApiErrors::UnknownError(..) => "unknown_error"@,
        ApiErrors::Validation(..) => "invalid_input"@,
        ApiErrors::NotFound(..) => "not_found"@,
        ApiErrors::DatabaseError(..) => "database_error"@,
        ApiErrors::InvalidCredentials => "invalid_credentials"@,
        ApiErrors::UnavailableUsername(..) => "unavailable_username"@,
        ApiErrors::DisallowedUsername(..) => "disallowed_username"@,
        ApiErrors::UnhashedPassword => "unhashed_password"@,
        ApiErrors::AuthenticationCookieError => "auth_cookie_error"@,
        ApiErrors::RateLimitError(..) => "rate_limited"@,
        ApiErrors::AuthenticationError(..) => "custom_auth"@,
        ApiErrors::Unauthorized => "unauthorized"@,
        ApiErrors::WebhookError(..) => "webhook_error"@,
        ApiErrors::GDPRRegion => "gdpr_region"@,
    }
}

/// The human-readable message of an error, with its fields filled in.
pub open spec fn message_text(e: ApiErrors) -> Seq<char> {
    match e {
        ApiErrors::DummyError(..) => "A dummy error to make sure this enum has a lifetime"@,
        ApiErrors::UnknownError(s) => "An unknown error occurred: "@ + s@,
        ApiErrors::Validation(s) => "Error while validating input: "@ + s@,
        ApiErrors::NotFound(what, method) => "Could not find "@ + what@ + " with method "@
            + method@,
        ApiErrors::DatabaseError(s) => s@,
        ApiErrors::InvalidCredentials => "Invalid Username/Password Combo"@,
        ApiErrors::UnavailableUsername(s) => "This username is taken: "@ + s@,
        ApiErrors::DisallowedUsername(s) => "This username is disallowed: "@ + s@,
        ApiErrors::UnhashedPassword => "You sent an unhashed password, bad!"@,
        ApiErrors::AuthenticationCookieError => "Error with Authentication Cookie"@,
        ApiErrors::RateLimitError(wait, limit) => "You are being rate-limited. Please wait "@
            + decimal(wait as nat) + " milliseconds. 0/"@ + decimal(limit as nat)
            + " remaining."@,
        ApiErrors::AuthenticationError(s) => "Authentication Error: "@ + s@,
        ApiErrors::Unauthorized => "You are unauthorized to access this content."@,
        ApiErrors::WebhookError(s) => "Webhook Error: "@ + s@,
        ApiErrors::GDPRRegion => "This request came from a region with GDPR or GDPR-Adjacent legislation. We're not taking an risks with telemetry in the EU, sorry! :("@,
    }
}

/// The HTTP status code that answers an error.
pub open spec fn status_of(e: ApiErrors) -> u16 {
    match e {
        ApiErrors::DummyError(..) => 500,
        ApiErrors::UnknownError(..) => 500,
        ApiErrors::Validation(..) => 400,
        ApiErrors::NotFound(..) => 404,
        ApiErrors::DatabaseError(..) => 500,
        ApiErrors::InvalidCredentials => 401,
        ApiErrors::UnavailableUsername(..) => 400,
        ApiErrors::DisallowedUsername(..) => 400,
        ApiErrors::UnhashedPassword => 400,
        ApiErrors::AuthenticationCookieError => 400,
        ApiErrors::RateLimitError(..) => 429,
        ApiErrors::AuthenticationError(..) => 401,
        ApiErrors::Unauthorized => 401,
        ApiErrors::WebhookError(..) => 400,
        ApiErrors::GDPRRegion => 451,
    }
}

impl<'x> ApiErrors<'x> {
    /// The machine-readable name of this error.
    pub fn error_name(&self) -> (r: &'static str)
        ensures
            r@ == error_name(*self),
    {
        match self {
            ApiErrors::DummyError(..) => "dummy_error",
            ApiErrors::UnknownError(..) => "unknown_error",
            ApiErrors::Validation(..) => "invalid_input",
            ApiErrors::NotFound(..) => "not_found",
            ApiErrors::DatabaseError(..) => "database_error",
            ApiErrors::InvalidCredentials => "invalid_credentials",
            ApiErrors::UnavailableUsername(..) => "unavailable_username",
            ApiErrors::DisallowedUsername(..) => "disallowed_username",
            ApiErrors::UnhashedPassword => "unhashed_password",
            ApiErrors::AuthenticationCookieError => "auth_cookie_error",
            ApiErrors::RateLimitError(..) => "rate_limited",
            ApiErrors::AuthenticationError(..) => "custom_auth",
            ApiErrors::Unauthorized => "unauthorized",
            ApiErrors::WebhookError(..) => "webhook_error",
            ApiErrors::GDPRRegion => "gdpr_region",
        }
    }

    /// The human-readable message of this error.
    pub fn message(&self) -> (r: String)
        ensures
            r@ == message_text(*self),
    {
        match self {
            ApiErrors::DummyError(..) => String::from_str(
                "A dummy error to make sure this enum has a lifetime",
            ),
            ApiErrors::UnknownError(s) => joined("An unknown error occurred: ", s.as_str()),
            ApiErrors::Validation(s) => joined("Error while validating input: ", s.as_str()),
            ApiErrors::NotFound(what, method) => {
                let mut out = joined("Could not find ", what.as_str());
                out.append(" with method ");
                out.append(method.as_str());
                out
            },
            ApiErrors::DatabaseError(s) => s.clone(),
            ApiErrors::InvalidCredentials => String::from_str("Invalid Username/Password Combo"),
            ApiErrors::UnavailableUsername(s) => joined("This username is taken: ", s.as_str()),
            ApiErrors::DisallowedUsername(s) => joined(
                "This username is disallowed: ",
                s.as_str(),
            ),
            ApiErrors::UnhashedPassword => String::from_str("You sent an unhashed password, bad!"),
            ApiErrors::AuthenticationCookieError => String::from_str(
                "Error with Authentication Cookie",
            ),
            ApiErrors::RateLimitError(wait, limit) => {
                let mut out = String::from_str("You are being rate-limited. Please wait ");
                push_decimal(&mut out, *wait);
                out.append(" milliseconds. 0/");
                push_decimal(&mut out, *limit as u128);
                out.append(" remaining.");
                out
            },
            ApiErrors::AuthenticationError(s) => joined("Authentication Error: ", s.as_str()),
            ApiErrors::Unauthorized => String::from_str(
                "You are unauthorized to access this content.",
            ),
            ApiErrors::WebhookError(s) => joined("Webhook Error: ", s.as_str()),
            ApiErrors::GDPRRegion => String::from_str(
                "This request came from a region with GDPR or GDPR-Adjacent legislation. We're not taking an risks with telemetry in the EU, sorry! :(",
            ),
        }
    }

    /// The body of the answer to this error: its name and its message.
    pub fn as_api_error<'a>(&self) -> (r: ApiError<'a>)
        ensures
            r.error@ == error_name(*self),
            r.description@ == message_text(*self),
    {
        ApiError { error: self.error_name(), description: self.message() }
    }

    /// The HTTP status code that answers this error.
    pub fn status_code(&self) -> (r: u16)
        ensures
            r == status_of(*self),
    {
        match self {
            ApiErrors::DummyError(..) => 500,
            ApiErrors::UnknownError(..) => 500,
            ApiErrors::Validation(..) => 400,
            ApiErrors::NotFound(..) => 404,
            ApiErrors::DatabaseError(..) => 500,
            ApiErrors::InvalidCredentials => 401,
            ApiErrors::UnavailableUsername(..) => 400,
            ApiErrors::DisallowedUsername(..) => 400,
            ApiErrors::UnhashedPassword => 400,
            ApiErrors::AuthenticationCookieError => 400,
            ApiErrors::RateLimitError(..) => 429,
            ApiErrors::AuthenticationError(..) => 401,
            ApiErrors::Unauthorized => 401,
            ApiErrors::WebhookError(..) => 400,
            ApiErrors::GDPRRegion => 451,
        }
    }
}

/// Every error is answered with a client-error or server-error status.
pub proof fn lemma_status_is_error_class(e: ApiErrors)
    ensures
        400 <= status_of(e) <= 599,
{
}

/// Errors of different kinds carry different names, so a client can tell
/// them apart by name alone.
pub proof fn lemma_error_names_distinct(a: ApiErrors, b: ApiErrors)
    requires
        variant_index(a) != variant_index(b),
    ensures
        error_name(a) != error_name(b),
{
    reveal_strlit("dummy_error");
    reveal_strlit("unknown_error");
    reveal_strlit("invalid_input");
    reveal_strlit("not_found");
    reveal_strlit("database_error");
    reveal_strlit("invalid_credentials");
    reveal_strlit("unavailable_username");
    reveal_strlit("disallowed_username");
    reveal_strlit("unhashed_password");
    reveal_strlit("auth_cookie_error");
    reveal_strlit("rate_limited");
    reveal_strlit("custom_auth");
    reveal_strlit("unauthorized");
    reveal_strlit("webhook_error");
    reveal_strlit("gdpr_region");
    if error_name(a) == error_name(b) {
        let (na, nb) = (error_name(a), error_name(b));
        assert(na.len() == nb.len() && na[0] == nb[0]);
        assert(variant_index(a) == variant_index(b));
    }
}

} // verus!
