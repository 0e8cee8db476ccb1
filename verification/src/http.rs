//! HTTP status codes.
use vstd::prelude::*;

verus! {

/// An HTTP status code: a number from 100 to 999.
#[derive(Debug, Clone, Copy, PartialEq, Eq)]
pub struct Status {
    code: u16,
}

/// The status line of a code: the number and its canonical reason phrase.
pub uninterp spec fn status_text(code: u16) -> Seq<char>;

/// Writes a status code with the `Display` of `reqwest::StatusCode`.
///
/// Trusted: for a code from 100 to 999, which `StatusCode::from_u16`
/// accepts, the result is the text that [`status_text`] names; it depends on
/// the code alone.
#[verifier::external_body]
pub(crate) fn status_line(code: u16) -> (r: String)
    requires
        100 <= code <= 999,
    ensures
        r@ == status_text(code),
{
    match reqwest::StatusCode::from_u16(code) {
        Ok(s) => s.to_string(),
        Err(_) => String::new(),
    }
}

impl Status {
    #[verifier::type_invariant]
    spec fn in_range(self) -> bool {
        100 <= self.code <= 999
    }

    /// The numeric code.
    pub closed spec fn view(&self) -> u16 {
        self.code
    }

    /// A status with the given code; `None` for a number that is no status
    /// code.
    pub fn new(code: u16) -> (r: Option<Status>)
        ensures
            r is Some <==> 100 <= code <= 999,
            r matches Some(s) ==> s@ == code,
    {
        if 100 <= code && code <= 999 {
            Some(Status { code })
        } else {
            None
        }
    }

    /// The numeric code.
    pub fn code(&self) -> (c: u16)
        ensures
            c == self@,
            100 <= c <= 999,
    {
        proof {
            use_type_invariant(self);
        }
        self.code
    }

    /// Whether the status is in the success class, 200 to 299.
    pub fn is_success(&self) -> (r: bool)
        ensures
            r == (200 <= self@ < 300),
    {
        200 <= self.code && self.code < 300
    }

    /// The status line, such as `500 Internal Server Error`.
    pub fn text(&self) -> (r: String)
        ensures
            r@ == status_text(self@),
    {
        proof {
            use_type_invariant(self);
        }
        status_line(self.code)
    }
}

} // verus!
