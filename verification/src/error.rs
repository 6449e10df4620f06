//! The errors of the command-line client and the text each one shows.
use vstd::prelude::*;

use crate::text::{decimal, push_decimal};

verus! {

/// Errors that can occur while talking to the API or managing the login.
#[derive(Debug, Clone)]
pub enum CliError {
    /// The HTTP request itself failed; holds the transport's description.
    Request(String),
    Unauthorized { message: String },
    Forbidden { message: String },
    NotFound { message: String },
    BadRequest { message: String },
    ServerError { status: u16, message: String },
    ParseError(String),
    ClientBuild(String),
    TokenRefreshFailed { message: String },
    LoginFailed { message: String },
    LoginTimeout,
    TokenStorage { message: String },
}

/// The text shown for an error.
pub open spec fn cli_error_text(e: CliError) -> Seq<char> {
    match e {
        CliError::Request(m) => "HTTP request failed: "@ + m@,
        CliError::Unauthorized { message } => "Authentication failed: "@ + message@,
        CliError::Forbidden { message } => "Access denied: "@ + message@,
        CliError::NotFound { message } => "Not found: "@ + message@,
        CliError::BadRequest { message } => "Bad request: "@ + message@,
        CliError::ServerError { status, message } => "Server error ("@ + decimal(status as nat)
            + "): "@ + message@,
        CliError::ParseError(m) => "Failed to parse API response: "@ + m@,
        CliError::ClientBuild(m) => "Failed to build HTTP client: "@ + m@,
        CliError::TokenRefreshFailed { message } => "Token refresh failed: "@ + message@,
        CliError::LoginFailed { message } => "Login failed: "@ + message@,
        CliError::LoginTimeout => "Login timed out. Please try again."@,
        CliError::TokenStorage { message } => "Token storage error: "@ + message@,
    }
}

impl CliError {
    /// The text shown for this error.
    pub fn text(&self) -> (s: String)
        ensures
            s@ == cli_error_text(*self),
    {
        let (prefix, body): (&str, &String) = match self {
            CliError::Request(m) => ("HTTP request failed: ", m),
            CliError::Unauthorized { message } => ("Authentication failed: ", message),
            CliError::Forbidden { message } => ("Access denied: ", message),
            CliError::NotFound { message } => ("Not found: ", message),
            CliError::BadRequest { message } => ("Bad request: ", message),
            CliError::ServerError { status, message } => {
                let mut s = String::from_str("Server error (");
                push_decimal(&mut s, *status as u64);
                s.append("): ");
                s.append(message.as_str());
                assert(s@ =~= cli_error_text(*self));
                return s;
            },
            CliError::ParseError(m) => ("Failed to parse API response: ", m),
            CliError::ClientBuild(m) => ("Failed to build HTTP client: ", m),
            CliError::TokenRefreshFailed { message } => ("Token refresh failed: ", message),
            CliError::LoginFailed { message } => ("Login failed: ", message),
            CliError::LoginTimeout => {
                return String::from_str("Login timed out. Please try again.");
            },
            CliError::TokenStorage { message } => ("Token storage error: ", message),
        };
        let mut s = String::from_str(prefix);
        s.append(body.as_str());
        s
    }
}

} // verus!
