//! HTTP status codes as the gateway sees them.

use vstd::prelude::*;

verus! {

/// The reason phrase that `http::StatusCode` displays behind a code: the
/// canonical reason of the code, or a placeholder where it knows none.
pub uninterp spec fn reason_phrase(code: u16) -> Seq<char>;

/// The three decimal digits of a code between 100 and 999.
pub open spec fn decimal_digits(code: u16) -> Seq<char> {
    seq![
        "0123456789"@[code as int / 100],
        "0123456789"@[(code as int / 10) % 10],
        "0123456789"@[code as int % 10],
    ]
}

/// A status code as it is displayed: the code in decimal digits, a space
/// and the reason phrase.
pub open spec fn status_display(code: u16) -> Seq<char> {
    decimal_digits(code) + seq![' '] + reason_phrase(code)
}

/// An HTTP status code: always between 100 and 999.
#[derive(Clone, Copy, Debug, PartialEq, Eq)]
pub struct StatusCode {
    code: u16,
}

impl View for StatusCode {
    type V = u16;

    closed spec fn view(&self) -> u16 {
        self.code
    }
}

impl StatusCode {
    #[verifier::type_invariant]
    spec fn in_range(self) -> bool {
        100 <= self.code <= 999
    }

    /// Accepts exactly the codes from 100 to 999.
    pub fn from_u16(code: u16) -> (r: Option<StatusCode>)
        ensures
            r is Some <==> 100 <= code <= 999,
            r matches Some(s) ==> s@ == code,
    {
        if 100 <= code && code <= 999 {
            Some(StatusCode { code })
        } else {
            None
        }
    }

    /// The code as a number.
    pub fn as_u16(&self) -> (r: u16)
        ensures
            r == self@,
            100 <= r <= 999,
    {
        proof {
            use_type_invariant(self);
        }
        self.code
    }

    /// Whether the code is in the 2xx class.
    pub fn is_success(&self) -> (r: bool)
        ensures
            r == (200 <= self@ < 300),
    {
        200 <= self.code && self.code < 300
    }

    /// 400 Bad Request.
    pub fn bad_request() -> (r: StatusCode)
        ensures
            r@ == 400,
    {
        StatusCode { code: 400 }
    }

    /// 500 Internal Server Error.
    pub fn internal_server_error() -> (r: StatusCode)
        ensures
            r@ == 500,
    {
        StatusCode { code: 500 }
    }

    /// 502 Bad Gateway.
    pub fn bad_gateway() -> (r: StatusCode)
        ensures
            r@ == 502,
    {
        StatusCode { code: 502 }
    }

    /// The code followed by its canonical reason phrase.
    pub fn display(&self) -> (r: String)
        ensures
            r@ == status_display(self@),
    {
        display_of(self.as_u16()).unwrap()
    }
}

/// `http::StatusCode::from_u16` followed by the `Display` of the status
/// code. The conversion succeeds exactly for codes from 100 to 999.
/// `Display` writes the code as a decimal number, a space, and the
/// canonical reason of the code or, where there is none, a placeholder.
#[verifier::external_body]
fn display_of(code: u16) -> (r: Option<String>)
    ensures
        r is Some <==> 100 <= code <= 999,
        r matches Some(s) ==> s@ == decimal_digits(code) + seq![' '] + reason_phrase(code),
{
    match axum::http::StatusCode::from_u16(code) {
        Ok(status) => Some(status.to_string()),
        Err(_) => None,
    }
}

} // verus!
