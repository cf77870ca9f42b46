//! Errors that can occur when using the Datto RMM API client.

use crate::status::StatusCode;
use crate::trusted::status_line;
use vstd::prelude::*;

verus! {

/// Errors that can occur when using the Datto RMM API client.
#[derive(Debug)]
pub enum Error {
    /// HTTP client error: the transport failed to connect, timed out, or
    /// could not decode what it received. The variant holds the transport's
    /// own description of the failure.
    HttpClient(String),
    /// Authentication error: the token endpoint answered with a status other
    /// than success.
    Auth(String),
    /// API error response
    Api {
        /// HTTP status code
        status: u16,
        /// Error message
        message: String,
    },
}

/// The decimal digit for a number below ten.
pub open spec fn digit_char(digit: nat) -> char {
    ((48 + digit) as u8) as char
}

/// A number written in decimal, without leading zeros.
pub open spec fn decimal(n: nat) -> Seq<char>
    decreases n,
{
    if n < 10 {
        seq![digit_char(n)]
    } else {
        decimal(n / 10).push(digit_char(n % 10))
    }
}

/// What an authentication error says of a rejected token request: the status
/// line of the answer, then its body.
pub open spec fn auth_failure_message(status: u16, body: Seq<char>) -> Seq<char> {
    "OAuth token request failed: "@ + status_line(status) + " - "@ + body
}

fn digit_str(digit: u16) -> (text: &'static str)
    requires
        digit < 10,
    ensures
        text@ == seq![digit_char(digit as nat)],
{
    proof {
        reveal_strlit("0");
        reveal_strlit("1");
        reveal_strlit("2");
        reveal_strlit("3");
        reveal_strlit("4");
        reveal_strlit("5");
        reveal_strlit("6");
        reveal_strlit("7");
        reveal_strlit("8");
        reveal_strlit("9");
    }
    let text = match digit {
        0 => "0",
        1 => "1",
        2 => "2",
        3 => "3",
        4 => "4",
        5 => "5",
        6 => "6",
        7 => "7",
        8 => "8",
        _ => "9",
    };
    assert(text@ =~= seq![digit_char(digit as nat)]);
    text
}

/// Write a number in decimal.
pub fn decimal_string(n: u16) -> (text: String)
    ensures
        text@ == decimal(n as nat),
    decreases n,
{
    if n < 10 {
        String::from_str(digit_str(n))
    } else {
        let text = decimal_string(n / 10).concat(digit_str(n % 10));
        assert(text@ =~= decimal(n as nat));
        text
    }
}

impl Error {
    /// The error for a token request that the endpoint answered with a
    /// status other than success. It names the status and carries the body.
    pub fn auth_failure(status: StatusCode, body: &str) -> (error: Error)
        ensures
            error matches Error::Auth(message) && message@ == auth_failure_message(
                status.code(),
                body@,
            ),
    {
        Error::token_request_failed(status.to_string().as_str(), body)
    }

    /// The error for a rejected token request, from the status line of the
    /// answer and its body.
    pub fn token_request_failed(status_line: &str, body: &str) -> (error: Error)
        ensures
            error matches Error::Auth(message) && message@ == "OAuth token request failed: "@
                + status_line@ + " - "@ + body@,
    {
        let mut message = String::from_str("OAuth token request failed: ");
        message.append(status_line);
        message.append(" - ");
        message.append(body);
        Error::Auth(message)
    }

    /// The message of an error.
    pub open spec fn message_spec(self) -> Seq<char> {
        match self {
            Error::HttpClient(failure) => "HTTP client error: "@ + failure@,
            Error::Auth(reason) => "Authentication failed: "@ + reason@,
            Error::Api { status, message } => "API error: "@ + decimal(status as nat) + " - "@
                + message@,
        }
    }

    /// The message of this error.
    pub fn to_string(&self) -> (message: String)
        ensures
            message@ == self.message_spec(),
    {
        match self {
            Error::HttpClient(failure) => String::from_str("HTTP client error: ").concat(
                failure.as_str(),
            ),
            Error::Auth(reason) => String::from_str("Authentication failed: ").concat(
                reason.as_str(),
            ),
            Error::Api { status, message } => {
                let mut text = String::from_str("API error: ");
                text.append(decimal_string(*status).as_str());
                text.append(" - ");
                text.append(message.as_str());
                text
            },
        }
    }
}

} // verus!
