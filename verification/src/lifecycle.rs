//! The lifecycle of a chat session as the page tracks it, and the message
//! shown when a session ends.
use vstd::prelude::*;

use crate::contracts::SessionStatus;
use crate::text::{chars_eq, chars_of, string_from_chars, trim, trim_chars};

verus! {

/// Text of the status entry recorded when a session has ended.
pub const CLOSED_SESSION_MESSAGE: &'static str = "Conversation ended.";

/// Colour of a status badge.
#[derive(Clone, Copy, Debug, PartialEq, Eq, Structural)]
pub enum BadgeTone {
    Neutral,
    Success,
    Warning,
    Danger,
}

/// Where the session shown on the page stands.
#[derive(Clone, Copy, Debug, PartialEq, Eq, Structural)]
pub enum SessionLifecycle {
    Loading,
    Active,
    Closed,
    Unavailable,
    Error,
}

/// Where the current turn of the conversation stands.
#[derive(Clone, Copy, Debug, PartialEq, Eq, Structural)]
pub enum TurnState {
    Idle,
    Submitting,
    AwaitingReply,
    AwaitingPermission,
    Cancelling,
}

/// The message for a session that ended for `reason`: the trimmed reason,
/// unless it is missing, blank or the default `closed by user`.
pub open spec fn session_end_message_spec(reason: Option<Seq<char>>) -> Seq<char> {
    match reason {
        None => CLOSED_SESSION_MESSAGE@,
        Some(r) => if trim(r).len() == 0 || trim(r) == "closed by user"@ {
            CLOSED_SESSION_MESSAGE@
        } else {
            trim(r)
        },
    }
}

/// The message shown when a session ends for `reason`.
pub fn session_end_message(reason: Option<&str>) -> (message: String)
    ensures
        message@ == session_end_message_spec(
            match reason {
                Some(r) => Some(r@),
                None => None,
            },
        ),
{
    let closed = CLOSED_SESSION_MESSAGE;
    match reason {
        None => closed.to_string(),
        Some(r) => {
            let chars = chars_of(r);
            let trimmed = trim_chars(chars.as_slice());
            let default_reason = chars_of("closed by user");
            if trimmed.len() == 0 || chars_eq(trimmed.as_slice(), default_reason.as_slice()) {
                closed.to_string()
            } else {
                string_from_chars(trimmed.as_slice())
            }
        },
    }
}

/// The lifecycle that a status reported by the backend means.
pub fn session_status_label(status: SessionStatus) -> (lifecycle: SessionLifecycle)
    ensures
        lifecycle == match status {
            SessionStatus::Active => SessionLifecycle::Active,
            SessionStatus::Closed => SessionLifecycle::Closed,
        },
{
    match status {
        SessionStatus::Active => SessionLifecycle::Active,
        SessionStatus::Closed => SessionLifecycle::Closed,
    }
}

} // verus!
