//! HTTP status codes, as far as the client looks at them.

use crate::trusted::{status_line, status_to_string};
use vstd::prelude::*;

verus! {

/// The status code of an HTTP response: a number from 100 to 999.
#[derive(Debug, Clone, Copy, PartialEq, Eq, Structural)]
pub struct StatusCode {
    code: u16,
}

impl StatusCode {
    #[verifier::type_invariant]
    spec fn in_range(self) -> bool {
        100 <= self.code <= 999
    }

    /// The number of this status code.
    pub closed spec fn code(self) -> u16 {
        self.code
    }

    /// Whether a number is a status code: whether it has three digits.
    pub open spec fn is_valid(code: u16) -> bool {
        100 <= code <= 999
    }

    /// Whether a status code reports success: whether it lies in 200..=299.
    pub open spec fn is_success_spec(self) -> bool {
        200 <= self.code() <= 299
    }

    /// Make a status code of a number, if the number has three digits.
    pub fn from_u16(code: u16) -> (status: Option<StatusCode>)
        ensures
            match status {
                Some(status) => Self::is_valid(code) && status.code() == code,
                None => !Self::is_valid(code),
            },
    {
        if 100 <= code && code <= 999 {
            Some(StatusCode { code })
        } else {
            None
        }
    }

    /// The number of this status code.
    pub fn as_u16(&self) -> (code: u16)
        ensures
            code == self.code(),
            Self::is_valid(code),
    {
        proof {
            use_type_invariant(self);
        }
        self.code
    }

    /// Check if status is within 200-299.
    pub fn is_success(&self) -> (success: bool)
        ensures
            success == self.is_success_spec(),
    {
        200 <= self.code && self.code < 300
    }

    /// The status line of this code: the number and its reason phrase.
    pub fn to_string(&self) -> (line: String)
        ensures
            line@ == status_line(self.code()),
    {
        proof {
            use_type_invariant(self);
        }
        match status_to_string(self.code) {
            Some(line) => line,
            // Not taken: the code has three digits.
            None => String::new(),
        }
    }
}

} // verus!
