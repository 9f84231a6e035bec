//! The registry client's error taxonomy.
//!
//! Every failure of a fetch is one of: an `APIError`, a well-formed non-200
//! registry response carrying structured `{code, message}` pairs; a
//! `TransportError`, a network or IO failure below the HTTP layer (also
//! raised when an error body itself cannot be decoded); or a `DecodeError`,
//! a 200 response whose body does not match the expected schema.  Malformed
//! digest strings raise [`crate::digest::ParseDigestError`] instead.

use vstd::prelude::*;
use vstd::string::*;

verus! {

/// One structured error of a registry error response body: its code, its
/// message, and — when the registry attached one — its structured detail,
/// carried as the detail's JSON text.
#[derive(Debug)]
pub struct Error {
    pub code: String,
    pub message: String,
    pub detail: Option<String>,
}

impl Clone for Error {
    /// A clone carries the same code, message and detail.
    fn clone(&self) -> (r: Error)
        ensures
            r.code@ == self.code@,
            r.message@ == self.message@,
            r.detail is Some <==> self.detail is Some,
            (r.detail matches Some(d) ==> self.detail matches Some(o) && d@ == o@),
    {
        let detail = match &self.detail {
            Some(d) => Some(d.clone()),
            None => None,
        };
        Error { code: self.code.clone(), message: self.message.clone(), detail }
    }
}

/// The list of errors a registry error response body carries.
#[derive(Debug)]
pub struct ErrorList {
    pub errors: Vec<Error>,
}

/// Structured detail some registry errors attach to an entry.
#[derive(Debug)]
pub struct ErrorDetail {
    pub detail_type: String,
    pub class: String,
    pub name: String,
    pub action: String,
}

/// Outcome of a failed registry operation.
#[derive(Debug)]
pub enum ErrorResponse {
    /// A well-formed non-200 registry response, with its decoded error list.
    APIError(ErrorList),
    /// A network or IO failure below the HTTP layer.
    TransportError(String),
    /// A 200 response whose body does not match the expected schema.
    DecodeError(String),
}

/// One rendered line of an API error list: `\n  <code>: <message>`.
pub open spec fn error_line(e: Error) -> Seq<char> {
    "\n  "@ + e.code@ + ": "@ + e.message@
}

/// The rendered lines of an API error list, in order.
pub open spec fn errors_text(s: Seq<Error>) -> Seq<char>
    decreases s.len(),
{
    if s.len() == 0 {
        Seq::empty()
    } else {
        errors_text(s.drop_last()) + error_line(s.last())
    }
}

/// The rendered text of an [`ErrorResponse`].
pub open spec fn message_text(r: ErrorResponse) -> Seq<char> {
    match r {
        ErrorResponse::APIError(list) => "API error:"@ + errors_text(list.errors@),
        ErrorResponse::TransportError(m) => "Request error: "@ + m@,
        ErrorResponse::DecodeError(m) => "Decode error: "@ + m@,
    }
}

impl ErrorResponse {
    /// Renders the error for display: the taxonomy name, then for an API
    /// error one line per `{code, message}` pair, in list order.
    pub fn message(&self) -> (r: String)
        ensures
            r@ == message_text(*self),
    {
        match self {
            ErrorResponse::APIError(list) => {
                let mut r = String::from_str("API error:");
                let mut i: usize = 0;
                while i < list.errors.len()
                    invariant
                        i <= list.errors.len(),
                        r@ == "API error:"@ + errors_text(list.errors@.take(i as int)),
                    decreases list.errors.len() - i,
                {
                    r.append("\n  ");
                    r.append(list.errors[i].code.as_str());
                    r.append(": ");
                    r.append(list.errors[i].message.as_str());
                    proof {
                        assert(list.errors@.take(i as int + 1).drop_last()
                            =~= list.errors@.take(i as int));
                        assert(list.errors@.take(i as int + 1).last() == list.errors@[i as int]);
                        assert(r@ =~= "API error:"@ + errors_text(list.errors@.take(i as int + 1)));
                    }
                    i = i + 1;
                }
                proof {
                    assert(list.errors@.take(list.errors@.len() as int) =~= list.errors@);
                }
                r
            }
            ErrorResponse::TransportError(m) => {
                let mut r = String::from_str("Request error: ");
                r.append(m.as_str());
                r
            }
            ErrorResponse::DecodeError(m) => {
                let mut r = String::from_str("Decode error: ");
                r.append(m.as_str());
                r
            }
        }
    }
}

} // verus!
