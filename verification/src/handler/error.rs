//! The error model: a failure is lifted into a `HandlerError`, which carries a
//! status and renders into a response that tells the peer nothing of the cause.

use vstd::prelude::*;
use vstd::string::StringExecFns;
use crate::status::{canonical_reason_text, StatusCode};
use crate::text::{decimal, decimal_string, occurs_in};

verus! {

/// A failure as the error model reads it: what it says of itself, how it
/// renders for an operator, and the failure underneath it, if any.
#[derive(Debug, PartialEq, Eq)]
pub struct Failure {
    pub description: String,
    pub detail: String,
    pub source: Option<Box<Failure>>,
}

/// The response that the protocol layer sends for a failed handler.
#[derive(Debug, PartialEq, Eq)]
pub struct Response {
    pub status: StatusCode,
    pub request_id: String,
    pub body: Vec<u8>,
}

/// A response as a plain value.
pub struct ResponseView {
    pub status: StatusCode,
    pub request_id: Seq<char>,
    pub body: Seq<u8>,
}

impl View for Response {
    type V = ResponseView;

    open spec fn view(&self) -> ResponseView {
        ResponseView { status: self.status, request_id: self.request_id@, body: self.body@ }
    }
}

/// A failed handler execution, on its way to the protocol layer.
#[derive(Debug)]
pub struct HandlerError {
    status_code: StatusCode,
    cause: Failure,
}

/// Conversion of a failure into a `HandlerError`.
pub trait IntoHandlerError: Sized {
    /// Converts `self` into a `HandlerError` with the status 500.
    fn into_handler_error(self) -> (error: HandlerError)
        ensures
            error.spec_status_code().code == 500,
    ;
}

impl IntoHandlerError for Failure {
    fn into_handler_error(self) -> (error: HandlerError)
        ensures
            error == HandlerError::lift(self),
            error.spec_cause() == self,
    {
        HandlerError { status_code: StatusCode::internal_server_error(), cause: self }
    }
}

/// The text of a diagnostic record: the request's identifier in brackets, the
/// status number, its reason phrase and the cause's description.
pub open spec fn diagnostic_text(
    request_id: Seq<char>,
    code: u16,
    reason: Option<Seq<char>>,
    description: Seq<char>,
) -> Seq<char> {
    "["@ + request_id + "] HandlerError generating "@ + decimal(code as nat) + " "@ + (match reason {
        Some(text) => text,
        None => "(unregistered)"@,
    }) + " response: "@ + description
}

/// Builds the diagnostic record for a status whose reason phrase is `reason`.
pub fn format_diagnostic(
    request_id: &str,
    code: u16,
    reason: Option<&str>,
    description: &str,
) -> (record: String)
    ensures
        record@ == diagnostic_text(
            request_id@,
            code,
            match reason {
                Some(text) => Some(text@),
                None => None,
            },
            description@,
        ),
{
    let mut record = String::from_str("[");
    record.append(request_id);
    record.append("] HandlerError generating ");
    let number = decimal_string(code);
    record.append(number.as_str());
    record.append(" ");
    match reason {
        Some(text) => record.append(text),
        None => record.append("(unregistered)"),
    }
    record.append(" response: ");
    record.append(description);
    record
}

impl HandlerError {
    /// The status that the response will carry.
    pub closed spec fn spec_status_code(&self) -> StatusCode {
        self.status_code
    }

    /// The failure that was lifted into this error.
    pub closed spec fn spec_cause(&self) -> Failure {
        self.cause
    }

    /// What the error says of itself, whatever its cause.
    pub open spec fn description_text() -> Seq<char> {
        "handler failed to process request"@
    }

    /// The error that a failure is lifted into: the failure itself as the
    /// cause, under the status 500.
    pub closed spec fn lift(failure: Failure) -> HandlerError {
        HandlerError { status_code: StatusCode { code: 500 }, cause: failure }
    }

    /// This error with its status replaced and its cause kept.
    pub closed spec fn spec_with_status(self, status_code: StatusCode) -> HandlerError {
        HandlerError { status_code, cause: self.cause }
    }

    /// The response that this error renders into for a request with the
    /// identifier `request_id`: the error's status and an empty body.
    pub open spec fn response(&self, request_id: Seq<char>) -> ResponseView {
        ResponseView { status: self.spec_status_code(), request_id, body: Seq::<u8>::empty() }
    }

    /// The status that the response will carry.
    #[verifier::when_used_as_spec(spec_status_code)]
    pub fn status_code(&self) -> (status: StatusCode)
        ensures
            status == self.spec_status_code(),
    {
        self.status_code
    }

    /// The failure underneath: always present.
    pub fn cause(&self) -> (cause: Option<&Failure>)
        ensures
            cause == Some(&self.spec_cause()),
    {
        Some(&self.cause)
    }

    /// What the error says of itself.
    pub fn description(&self) -> (text: &'static str)
        ensures
            text@ == Self::description_text(),
    {
        "handler failed to process request"
    }

    /// The error as a peer may see it: the fixed description.
    pub fn to_string(&self) -> (text: String)
        ensures
            text@ == Self::description_text(),
    {
        String::from_str("handler failed to process request")
    }

    /// The error as an operator sees it: the fixed description, then the
    /// cause's detail in parentheses.
    pub fn debug_string(&self) -> (text: String)
        ensures
            text@ == Self::description_text() + " ("@ + self.spec_cause().detail@ + ")"@,
    {
        let mut text = String::from_str("handler failed to process request");
        text.append(" (");
        text.append(self.cause.detail.as_str());
        text.append(")");
        text
    }

    /// Sets the status of the response that this error renders into. The
    /// cause is kept; of several calls the last one decides.
    pub fn with_status(self, status_code: StatusCode) -> (error: HandlerError)
        ensures
            error == self.spec_with_status(status_code),
            error.spec_status_code() == status_code,
            error.spec_cause() == self.spec_cause(),
    {
        HandlerError { status_code, cause: self.cause }
    }

    /// The record of this error for the operator's log, keyed by the
    /// request's identifier. It is the only place where the cause is told.
    pub fn diagnostic_record(&self, request_id: &str) -> (record: String)
        ensures
            record@ == diagnostic_text(
                request_id@,
                self.spec_status_code().code,
                canonical_reason_text(self.spec_status_code().code),
                self.spec_cause().description@,
            ),
    {
        let reason = self.status_code.canonical_reason();
        match reason {
            Some(text) => format_diagnostic(
                request_id,
                self.status_code.as_u16(),
                Some(text.as_str()),
                self.cause.description.as_str(),
            ),
            None => format_diagnostic(
                request_id,
                self.status_code.as_u16(),
                None,
                self.cause.description.as_str(),
            ),
        }
    }

    /// Renders the error into the response for the request with the
    /// identifier `request_id`. The cause goes nowhere.
    pub fn into_response(self, request_id: &str) -> (response: Response)
        ensures
            response@ == self.response(request_id@),
    {
        Response {
            status: self.status_code,
            request_id: String::from_str(request_id),
            body: Vec::new(),
        }
    }
}

/// Lifting gives the status 500 whatever the failure, and keeps the failure
/// as the cause.
pub proof fn lemma_lift_defaults_to_500(failure: Failure)
    ensures
        HandlerError::lift(failure).spec_status_code().code == 500,
        HandlerError::lift(failure).spec_cause() == failure,
{
}

/// Of two overrides the last one wins: the result is what the second alone
/// would have given, with the cause that the error had before both.
pub proof fn lemma_last_status_wins(h: HandlerError, s1: StatusCode, s2: StatusCode)
    ensures
        h.spec_with_status(s1).spec_with_status(s2).spec_status_code() == s2,
        h.spec_with_status(s1).spec_with_status(s2).spec_cause() == h.spec_cause(),
        h.spec_with_status(s1).spec_with_status(s2) == h.spec_with_status(s2),
{
}

/// A rendered response carries the error's status, and no run of bytes of
/// any length occurs in its body: so no part of the cause's description does.
pub proof fn lemma_response_hides_cause(h: HandlerError, request_id: Seq<char>, needle: Seq<u8>)
    requires
        needle.len() > 0,
    ensures
        h.response(request_id).status == h.spec_status_code(),
        !occurs_in(needle, h.response(request_id).body),
{
}

} // verus!
