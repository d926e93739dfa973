//! The error kinds that every operation of this client can return.

use vstd::prelude::*;

verus! {

/// The spec-level text of the message carried by `InvalidArgument` when a
/// post is attempted with no payload-bearing field set.
pub open spec fn msg_payload_required() -> Seq<char> {
    "text, attachments, or blocks is required"@
}

/// The spec-level text of the message carried by `InvalidArgument` when a
/// delete response does not report success.
pub open spec fn msg_delete_failed() -> Seq<char> {
    "Failed to delete message"@
}

/// The spec-level text of the message carried by `InvalidArgument` when a
/// post response carries no message identifier.
pub open spec fn msg_no_message_id() -> Seq<char> {
    "No message ID in response"@
}

/// Error type for the client's operations: either the caller's input (or the
/// shape of the server's response) was invalid, or the HTTP exchange failed.
#[derive(Debug)]
pub enum SlackApiError {
    InvalidArgument(String),
    HttpRequestFailed(String),
}

impl SlackApiError {
    /// A human-readable description of the error, in place of `Display`.
    pub fn describe(&self) -> (r: String)
        ensures
            (self matches SlackApiError::InvalidArgument(m) ==> r@ == "Invalid argument: "@
                + m@),
            (self matches SlackApiError::HttpRequestFailed(m) ==> r@ == "HTTP request failed: "@
                + m@),
    {
        match self {
            SlackApiError::InvalidArgument(m) => "Invalid argument: ".to_owned().concat(
                m.as_str(),
            ),
            SlackApiError::HttpRequestFailed(m) => "HTTP request failed: ".to_owned().concat(
                m.as_str(),
            ),
        }
    }
}

impl PartialEq for SlackApiError {
    fn eq(&self, other: &SlackApiError) -> (r: bool) {
        match (self, other) {
            (SlackApiError::InvalidArgument(a), SlackApiError::InvalidArgument(b)) => a.eq(b),
            (SlackApiError::HttpRequestFailed(a), SlackApiError::HttpRequestFailed(b)) => a.eq(
                b,
            ),
            _ => false,
        }
    }
}

impl vstd::std_specs::cmp::PartialEqSpecImpl for SlackApiError {
    open spec fn obeys_eq_spec() -> bool {
        true
    }

    open spec fn eq_spec(&self, other: &SlackApiError) -> bool {
        match (self, other) {
            (SlackApiError::InvalidArgument(a), SlackApiError::InvalidArgument(b)) => a@ == b@,
            (SlackApiError::HttpRequestFailed(a), SlackApiError::HttpRequestFailed(b)) => a@
                == b@,
            _ => false,
        }
    }
}

} // verus!
