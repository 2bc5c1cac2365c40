//! What the request pipeline decides around the handlers: how long a request
//! may take, and how a failure that no handler answered is presented to the
//! client.

use vstd::prelude::*;
use vstd::string::StringExecFns;

use crate::store::StoreError;
use crate::todo::optional_text;

verus! {

/// Seconds after which a request that is still in flight is answered with
/// [`STATUS_REQUEST_TIMEOUT`]. The handler's work is not cancelled: a write
/// that is under way still reaches the store.
pub const REQUEST_TIMEOUT_SECONDS: u64 = 10;

/// Status of a request that ran into the timeout.
pub const STATUS_REQUEST_TIMEOUT: u16 = 408;

/// Status of a request that failed for any other internal reason.
pub const STATUS_INTERNAL_SERVER_ERROR: u16 = 500;

/// The text that opens the message of an internal error.
pub open spec fn internal_error_prefix() -> Seq<char> {
    "Unhandled internal error: "@
}

/// The response that stands for a failure which no handler answered: its
/// status, and the text of its body where it has one.
pub open spec fn error_response(timed_out: bool, detail: Seq<char>) -> (u16, Option<Seq<char>>) {
    if timed_out {
        (STATUS_REQUEST_TIMEOUT, None)
    } else {
        (STATUS_INTERNAL_SERVER_ERROR, Some(internal_error_prefix() + detail))
    }
}

/// Turns a failure of the pipeline into the response that the client sees.
/// A timeout becomes `408` without a body. Anything else becomes `500` with a
/// plain-text body, and of the failure only its description `detail` is
/// shown, after a fixed prefix.
pub fn handle_error(timed_out: bool, detail: &str) -> (response: (u16, Option<String>))
    ensures
        response.0 == error_response(timed_out, detail@).0,
        optional_text(response.1) == error_response(timed_out, detail@).1,
{
    if timed_out {
        (STATUS_REQUEST_TIMEOUT, None)
    } else {
        let mut message = String::from_str("Unhandled internal error: ");
        message.append(detail);
        (STATUS_INTERNAL_SERVER_ERROR, Some(message))
    }
}

impl StoreError {
    /// What the description of the error says.
    pub open spec fn description(self) -> Seq<char> {
        match self {
            StoreError::IdentifierInUse => "no unused identifier could be generated"@,
        }
    }

    /// A description of the error for a diagnostic message.
    pub fn describe(&self) -> (text: String)
        ensures
            text@ == self.description(),
    {
        match self {
            StoreError::IdentifierInUse => String::from_str(
                "no unused identifier could be generated",
            ),
        }
    }
}

} // verus!
