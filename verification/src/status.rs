//! Status codes and the error that carries them.
use vstd::prelude::*;

verus! {

/// An HTTP status code.
///
/// A code is well formed when it lies between 100 and 999, the range in which
/// a status line can carry it.
#[derive(Clone, Copy, Debug, PartialEq, Eq, Structural)]
pub struct Status {
    pub code: u16,
}

/// Why a fetch gave no record.
///
/// The taxonomy is coarse on purpose: a refusal by the service carries the
/// status it answered with, and both a transport that never reached a status
/// line and a body that does not decode are reported as `400 Bad Request`.
#[derive(Clone, Copy, Debug, PartialEq, Eq, Structural)]
pub enum ErrorKind {
    Http(Status),
}

impl Status {
    /// The code lies in the range of a status line.
    pub open spec fn wf(self) -> bool {
        100 <= self.code <= 999
    }

    /// `200 OK`, the one status that counts as success.
    pub open spec fn ok_spec() -> Status {
        Status { code: 200 }
    }

    /// `400 Bad Request`, the placeholder for failures without a status.
    pub open spec fn bad_request_spec() -> Status {
        Status { code: 400 }
    }

    /// `404 Not Found`.
    pub open spec fn not_found_spec() -> Status {
        Status { code: 404 }
    }

    /// The status with the given code, where the code is in range.
    pub fn from_u16(code: u16) -> (r: Option<Status>)
        ensures
            r == (if 100 <= code <= 999 { Some(Status { code }) } else { None::<Status> }),
    {
        if 100 <= code && code <= 999 {
            Some(Status { code })
        } else {
            None
        }
    }

    /// The numeric code.
    pub fn as_u16(&self) -> (code: u16)
        ensures
            code == self.code,
    {
        self.code
    }

    #[verifier::when_used_as_spec(ok_spec)]
    pub fn ok() -> (s: Status)
        ensures
            s == Status::ok_spec(),
            s.wf(),
    {
        Status { code: 200 }
    }

    #[verifier::when_used_as_spec(bad_request_spec)]
    pub fn bad_request() -> (s: Status)
        ensures
            s == Status::bad_request_spec(),
            s.wf(),
    {
        Status { code: 400 }
    }

    #[verifier::when_used_as_spec(not_found_spec)]
    pub fn not_found() -> (s: Status)
        ensures
            s == Status::not_found_spec(),
            s.wf(),
    {
        Status { code: 404 }
    }

    /// Whether this is `200 OK`.
    pub fn is_ok(&self) -> (b: bool)
        ensures
            b == (*self == Status::ok_spec()),
    {
        self.code == 200
    }
}

impl ErrorKind {
    /// The status that the error carries.
    pub fn status(&self) -> (s: Status)
        ensures
            *self == ErrorKind::Http(s),
    {
        match self {
            ErrorKind::Http(s) => *s,
        }
    }
}

} // verus!
