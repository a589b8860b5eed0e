//! The user's notifications: marking them read and the live stream that
//! carries only the user's own.

use vstd::prelude::*;

verus! {

/// Why a notification was not marked read.
#[derive(Debug, Clone, Copy, PartialEq, Eq, Structural)]
pub enum NotificationError {
    NotFoundOrRead,
}

impl NotificationError {
    pub fn status(&self) -> (s: u16)
        ensures
            s == 404,
    {
        404
    }

    pub fn message(&self) -> (m: &'static str)
        ensures
            m@ == "Notification not found or already read"@,
    {
        "Notification not found or already read"
    }
}

/// Marking one notification read succeeds when a row changed: one of the
/// user's, not yet read.
pub fn check_marked(rows_affected: u64) -> (r: Result<(), NotificationError>)
    ensures
        r is Ok <==> rows_affected > 0,
        r is Err ==> r == Err::<(), NotificationError>(NotificationError::NotFoundOrRead),
{
    if rows_affected == 0 {
        Err(NotificationError::NotFoundOrRead)
    } else {
        Ok(())
    }
}

/// What a user's live stream sends for an event taken from the shared
/// channel (`None` when the stream lagged or the channel closed): the
/// event's text when it is for that user, else nothing.
pub fn event_for(received: Option<(u128, String)>, user: u128) -> (r: Option<String>)
    ensures
        r.deep_view() == match received {
            Some((uid, text)) => if uid == user { Some(text@) } else { None },
            None => None,
        },
{
    match received {
        Some((uid, text)) => if uid == user { Some(text) } else { None },
        None => None,
    }
}

} // verus!
