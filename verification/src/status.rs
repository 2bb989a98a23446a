//! The status of an HTTP reply.

use crate::text::decimal_text;
use vstd::prelude::*;

verus! {

/// The status code of an HTTP reply: a number of three digits.
#[derive(Clone, Copy)]
pub struct Status {
    code: u16,
}

impl View for Status {
    type V = u16;

    closed spec fn view(&self) -> u16 {
        self.code
    }
}

/// The codes that a reply can have.
pub open spec fn is_status_code(code: u16) -> bool {
    100 <= code <= 999
}

/// The codes of a reply that grants the request.
pub open spec fn is_success_code(code: u16) -> bool {
    200 <= code <= 299
}

/// The code of a reply to a request whose token was not accepted.
pub const UNAUTHORIZED: u16 = 401;

/// The code of a reply to a request for what the server does not have.
pub const NOT_FOUND: u16 = 404;

/// The words that `reqwest::StatusCode` shows behind a status code.
pub uninterp spec fn status_reason(code: u16) -> Seq<char>;

/// How a status code is shown: the number, and the words for it.
pub open spec fn status_text(code: u16) -> Seq<char> {
    decimal_text(code as nat) + " "@ + status_reason(code)
}

/// `Display` of `reqwest::StatusCode`: the number, a space, and words that depend on
/// the number alone.
#[verifier::external_body]
fn shown(code: u16) -> (r: String)
    requires
        is_status_code(code),
    ensures
        r@ == decimal_text(code as nat) + " "@ + status_reason(code),
{
    reqwest::StatusCode::from_u16(code).unwrap().to_string()
}

impl Status {
    #[verifier::type_invariant]
    spec fn well_formed(self) -> bool {
        is_status_code(self.code)
    }

    /// The status with the given code.
    pub fn new(code: u16) -> (r: Option<Status>)
        ensures
            r is Some <==> is_status_code(code),
            r matches Some(status) ==> status@ == code,
    {
        if 100 <= code && code <= 999 {
            Some(Status { code })
        } else {
            None
        }
    }

    /// The status code.
    pub fn code(&self) -> (r: u16)
        ensures
            r == self@,
            is_status_code(r),
    {
        proof {
            use_type_invariant(self);
        }
        self.code
    }

    /// Whether the reply grants the request.
    pub fn is_success(&self) -> (r: bool)
        ensures
            r == is_success_code(self@),
    {
        200 <= self.code && self.code <= 299
    }

    /// The status as it is shown in messages.
    pub fn text(&self) -> (r: String)
        ensures
            r@ == status_text(self@),
    {
        shown(self.code())
    }
}

} // verus!
