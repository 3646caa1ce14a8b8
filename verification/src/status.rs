//! HTTP status codes, as the transport's own type reads them.

use vstd::prelude::*;

verus! {

/// Whether `code` can be an HTTP status code: three digits, the first not 0.
pub open spec fn is_status_code(code: u16) -> bool {
    100 <= code <= 999
}

/// Whether `code` is an HTTP success: 200 to 299.
pub open spec fn is_success(code: u16) -> bool {
    200 <= code <= 299
}

/// The text that `reqwest::StatusCode` displays a status code as: the code,
/// a space, and the standard reason phrase of the code ("404 Not Found"),
/// or, for a code that has no standard phrase, a fixed placeholder in its
/// place ("599 <unknown status code>").
pub uninterp spec fn status_text(code: u16) -> Seq<char>;

/// Calls `reqwest::StatusCode::is_success` on the status that
/// `reqwest::StatusCode::from_u16` makes of `code`.
///
/// Taken on faith from that crate: `from_u16` accepts every code from 100 to
/// 999, and `is_success` is true of the codes from 200 to 299 and of no other.
#[verifier::external_body]
fn status_is_success(code: u16) -> (success: bool)
    requires
        is_status_code(code),
    ensures
        success == is_success(code),
{
    reqwest::StatusCode::from_u16(code).unwrap().is_success()
}

/// Formats, by its `Display`, the status that `reqwest::StatusCode::from_u16`
/// makes of `code`.
///
/// Taken on faith from that crate: `from_u16` accepts every code from 100 to
/// 999, and the text depends on the code alone. What the text is, is not
/// stated: [`status_text`] only names it.
#[verifier::external_body]
fn status_display(code: u16) -> (text: String)
    requires
        is_status_code(code),
    ensures
        text@ == status_text(code),
{
    reqwest::StatusCode::from_u16(code).unwrap().to_string()
}

/// The status code of a response. Holds a number from 100 to 999.
#[derive(Debug, Clone, Copy, PartialEq, Eq)]
pub struct Status {
    code: u16,
}

impl Status {
    #[verifier::type_invariant]
    spec fn in_range(self) -> bool {
        is_status_code(self.code)
    }

    /// The number of the status.
    pub closed spec fn code(self) -> u16 {
        self.code
    }

    /// The status with this number, if the number can be a status code.
    pub fn new(code: u16) -> (status: Option<Status>)
        ensures
            status is Some <==> is_status_code(code),
            status matches Some(made) ==> made.code() == code,
    {
        if 100 <= code && code <= 999 {
            Some(Status { code })
        } else {
            None
        }
    }

    /// The number of the status.
    pub fn as_u16(self) -> (code: u16)
        ensures
            code == self.code(),
            is_status_code(code),
    {
        proof {
            use_type_invariant(&self);
        }
        self.code
    }

    /// Whether the response carries the body that was asked for.
    pub fn is_success(self) -> (success: bool)
        ensures
            success == is_success(self.code()),
    {
        proof {
            use_type_invariant(&self);
        }
        status_is_success(self.code)
    }

    /// The status as it is shown in an error.
    pub fn text(self) -> (text: String)
        ensures
            text@ == status_text(self.code()),
    {
        proof {
            use_type_invariant(&self);
        }
        status_display(self.code)
    }
}

} // verus!
