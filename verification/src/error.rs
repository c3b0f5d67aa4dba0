//! The request-level failures and their uniform mapping to an HTTP status
//! code and a human-readable message.

use vstd::prelude::*;
use vstd::string::StringExecFns;

verus! {

/// A failure of one request. Handlers do not recover from these: each one
/// converts the whole request into a single error response.
#[derive(Debug)]
pub enum AppError {
    /// A required text field was empty after trimming.
    Validation,
    /// No row matched a single-item fetch.
    NotFound,
    /// The storage backend failed; the field holds its message.
    Storage(String),
    /// The bearer token was missing or wrong.
    Auth,
}

impl AppError {
    /// The detail text embedded in the client-facing message.
    pub open spec fn detail(self) -> Seq<char> {
        match self {
            AppError::Validation => "Some fields is empty"@,
            AppError::NotFound => "not found the post"@,
            AppError::Storage(d) => d@,
            AppError::Auth => Seq::<char>::empty(),
        }
    }

    /// HTTP status code and body of the error response. Every handler
    /// failure becomes status 500 with the message "Something went
    /// wrong: <detail>"; a failed bearer check short-circuits earlier,
    /// to a bare 401 with no body.
    pub fn response(&self) -> (r: (u16, String))
        ensures
            self is Auth ==> r.0 == 401 && r.1@ == Seq::<char>::empty(),
            !(self is Auth) ==> r.0 == 500 && r.1@ == "Something went wrong: "@ + self.detail(),
    {
        match self {
            AppError::Auth => (401, String::new()),
            AppError::Validation => (
                500,
                String::from_str("Something went wrong: ").concat("Some fields is empty"),
            ),
            AppError::NotFound => (
                500,
                String::from_str("Something went wrong: ").concat("not found the post"),
            ),
            AppError::Storage(d) => (
                500,
                String::from_str("Something went wrong: ").concat(d.as_str()),
            ),
        }
    }
}

} // verus!
