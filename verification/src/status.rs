//! Protocol status codes, held as plain numbers.

use vstd::prelude::*;

verus! {

/// The canonical reason phrase that `hyper::StatusCode::canonical_reason` gives
/// for the status that `hyper::StatusCode::try_from` makes of `code`; `None`
/// where the number is outside the protocol's range or has no registered phrase.
pub uninterp spec fn canonical_reason_text(code: u16) -> Option<Seq<char>>;

/// Calls `hyper::StatusCode::try_from` and then `canonical_reason` on the
/// status it returns. Trusted: the result is the phrase named by
/// `canonical_reason_text`, which depends on `code` alone.
#[verifier::external_body]
fn hyper_canonical_reason(code: u16) -> (reason: Option<String>)
    ensures
        match reason {
            Some(text) => canonical_reason_text(code) == Some(text@),
            None => canonical_reason_text(code).is_none(),
        },
{
    match hyper::StatusCode::try_from(code) {
        Ok(status) => status.canonical_reason().map(String::from),
        Err(_) => None,
    }
}

/// A protocol status, identified by its number.
#[derive(Clone, Copy, Debug, PartialEq, Eq, Structural)]
pub struct StatusCode {
    pub code: u16,
}

impl StatusCode {
    /// Whether `n` lies in the range of status numbers the protocol defines.
    pub open spec fn in_protocol_range(n: u16) -> bool {
        100 <= n && n <= 599
    }

    /// The status with number `n`, for numbers in the protocol's range only.
    pub fn try_from(n: u16) -> (status: Option<StatusCode>)
        ensures
            status == if Self::in_protocol_range(n) {
                Some(StatusCode { code: n })
            } else {
                None
            },
    {
        if n < 100 || n > 599 {
            None
        } else {
            Some(StatusCode { code: n })
        }
    }

    /// 500, the status of a failure that nobody has classified.
    pub fn internal_server_error() -> (status: StatusCode)
        ensures
            status.code == 500,
    {
        StatusCode { code: 500 }
    }

    /// 404.
    pub fn not_found() -> (status: StatusCode)
        ensures
            status.code == 404,
    {
        StatusCode { code: 404 }
    }

    /// 418.
    pub fn im_a_teapot() -> (status: StatusCode)
        ensures
            status.code == 418,
    {
        StatusCode { code: 418 }
    }

    /// The status number.
    pub fn as_u16(&self) -> (n: u16)
        ensures
            n == self.code,
    {
        self.code
    }

    /// The registered reason phrase of this status, where it has one.
    pub fn canonical_reason(&self) -> (reason: Option<String>)
        ensures
            match reason {
                Some(text) => canonical_reason_text(self.code) == Some(text@),
                None => canonical_reason_text(self.code).is_none(),
            },
    {
        hyper_canonical_reason(self.code)
    }
}

} // verus!
