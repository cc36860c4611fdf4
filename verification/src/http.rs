//! The little of HTTP that the worker's decisions read: a status code, and
//! the line that stands for it in an error's heading.

use crate::digits::digit_char;
use vstd::prelude::*;

verus! {

/// The three-digit status code of an HTTP response.
#[derive(Clone, Copy, Debug, PartialEq, Eq)]
pub struct HttpStatus {
    code: u16,
}

/// What `reqwest::StatusCode` prints for the status with the given code: the
/// code itself, a space, and the reason phrase that HTTP assigns to it.
pub uninterp spec fn status_line(code: u16) -> Seq<char>;

/// The three decimal digits of a status code.
pub open spec fn code_digits(code: u16) -> Seq<char> {
    seq![digit_char(code as int / 100), digit_char(code as int / 10 % 10), digit_char(code as int % 10)]
}

/// Whether `code` can be the status of a response.
pub open spec fn is_status_code(code: u16) -> bool {
    100 <= code <= 999
}

/// Codes from 200 to 299 report success.
pub open spec fn is_success_code(code: u16) -> bool {
    200 <= code < 300
}

/// Calls `reqwest::StatusCode::from_u16` and then the status's `Display`.
/// For a code from 100 to 999 the first always succeeds, and the second
/// writes the code in decimal, one space and a reason phrase; this contract
/// names the whole and states its first four characters.
#[verifier::external_body]
fn render_status(code: u16) -> (line: String)
    requires
        is_status_code(code),
    ensures
        line@ == status_line(code),
        line@.len() >= 4,
        line@.subrange(0, 3) == code_digits(code),
        line@[3] == ' ',
{
    match reqwest::StatusCode::from_u16(code) {
        Ok(status) => status.to_string(),
        Err(_) => String::new(),
    }
}

impl HttpStatus {
    #[verifier::type_invariant]
    spec fn in_range(self) -> bool {
        is_status_code(self.code)
    }

    /// The numeric code.
    pub closed spec fn spec_code(self) -> u16 {
        self.code
    }

    /// The status with the given code, if there is one.
    pub fn new(code: u16) -> (status: Option<HttpStatus>)
        ensures
            status is Some <==> is_status_code(code),
            status matches Some(s) ==> s.spec_code() == code,
    {
        if 100 <= code && code <= 999 {
            Some(HttpStatus { code })
        } else {
            None
        }
    }

    /// The numeric code.
    #[verifier::when_used_as_spec(spec_code)]
    pub fn code(self) -> (code: u16)
        ensures
            code == self.spec_code(),
            is_status_code(code),
    {
        proof {
            use_type_invariant(self);
        }
        self.code
    }

    /// Whether the server reported success.
    pub fn is_success(self) -> (success: bool)
        ensures
            success == is_success_code(self.spec_code()),
    {
        200 <= self.code && self.code < 300
    }

    /// The status as it appears in an error's heading.
    pub fn line(self) -> (line: String)
        ensures
            line@ == status_line(self.spec_code()),
            line@.len() >= 4,
            line@.subrange(0, 3) == code_digits(self.spec_code()),
            line@[3] == ' ',
    {
        proof {
            use_type_invariant(self);
        }
        render_status(self.code)
    }
}

} // verus!
