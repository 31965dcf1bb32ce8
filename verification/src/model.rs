//! Plain-value records of what the platform delivers and what is sent back.

use vstd::prelude::*;

verus! {

/// Smallest creation or edit time, in seconds since the Unix epoch, that the
/// platform's timestamp type can hold (midnight of the first day of year -9999).
pub const MIN_UNIX_SECONDS: i64 = -377705116800;

/// Largest such time (the last second of year 9999).
pub const MAX_UNIX_SECONDS: i64 = 253402300799;

/// Why a request to the platform failed.
#[derive(Clone, Copy, Debug, PartialEq, Eq)]
pub enum PlatformError {
    /// The request did not reach the platform or an attachment host.
    Network,
    /// The message or resource asked for is gone or cannot be seen.
    NotFound,
    /// The bot lacks the right to fetch, publish or delete in the channel.
    Permission,
}

impl PlatformError {
    /// The kind of failure behind the HTTP status of a refused request:
    /// 404 is a missing resource, 403 a missing right, and every other
    /// failure, with or without a status, counts as a network failure.
    pub open spec fn from_status_spec(status: Option<u16>) -> PlatformError {
        match status {
            Some(code) => if code == 404 {
                PlatformError::NotFound
            } else if code == 403 {
                PlatformError::Permission
            } else {
                PlatformError::Network
            },
            None => PlatformError::Network,
        }
    }

    /// Classifies a failed request by its HTTP status, if it has one.
    pub fn from_status(status: Option<u16>) -> (r: PlatformError)
        ensures
            r == Self::from_status_spec(status),
    {
        match status {
            Some(404) => PlatformError::NotFound,
            Some(403) => PlatformError::Permission,
            _ => PlatformError::Network,
        }
    }

    /// A short description for the operator's log.
    pub fn describe(&self) -> (r: &'static str)
        ensures
            r@ == match *self {
                PlatformError::Network => "network error"@,
                PlatformError::NotFound => "not found"@,
                PlatformError::Permission => "permission denied"@,
            },
    {
        match self {
            PlatformError::Network => "network error",
            PlatformError::NotFound => "not found",
            PlatformError::Permission => "permission denied",
        }
    }
}

/// Pointer from a message to the message it replies to.
#[derive(Clone, Debug, PartialEq, Eq)]
pub struct ReplyReference {
    pub channel_id: u64,
    pub message_id: Option<u64>,
}

/// Notification that a message was created.
#[derive(Clone, Debug, PartialEq, Eq)]
pub struct ChatEvent {
    pub author_id: u64,
    pub channel_id: u64,
    pub message_id: u64,
    pub content: String,
    pub reply: Option<ReplyReference>,
}

/// A named binary resource attached to a message.
#[derive(Clone, Debug, PartialEq, Eq)]
pub struct Attachment {
    pub url: String,
    pub filename: String,
}

/// The message that a reply-reference points at.
#[derive(Clone, Debug, PartialEq, Eq)]
pub struct TargetMessage {
    pub author_id: u64,
    pub content: String,
    pub attachments: Vec<Attachment>,
    /// Creation time, seconds since the Unix epoch.
    pub created: i64,
    /// Time of the last edit, if the message was edited.
    pub edited: Option<i64>,
    pub channel_id: u64,
    pub message_id: u64,
}

/// A downloaded attachment under its spoiler-marked name.
#[derive(Clone, Debug, PartialEq, Eq)]
pub struct SpoiledAttachment {
    pub filename: String,
    pub data: Vec<u8>,
}

/// What is published in place of the target message.
#[derive(Clone, Debug, PartialEq, Eq)]
pub struct ReplacementMessage {
    pub body: String,
    pub attachments: Vec<SpoiledAttachment>,
}

/// Whether `secs` is a time the platform's timestamp type can hold.
pub open spec fn valid_unix_seconds(secs: i64) -> bool {
    MIN_UNIX_SECONDS <= secs <= MAX_UNIX_SECONDS
}

impl TargetMessage {
    /// A target message is well formed when its author id is a real id
    /// (non-zero) and its times are ones the platform can render.
    pub open spec fn wf(self) -> bool {
        &&& self.author_id != 0
        &&& valid_unix_seconds(self.created)
        &&& match self.edited {
            Some(e) => valid_unix_seconds(e),
            None => true,
        }
    }

    /// Tests well-formedness at run time.
    pub fn is_valid(&self) -> (r: bool)
        ensures
            r == self.wf(),
    {
        let created_ok = MIN_UNIX_SECONDS <= self.created && self.created <= MAX_UNIX_SECONDS;
        let edited_ok = match self.edited {
            Some(e) => MIN_UNIX_SECONDS <= e && e <= MAX_UNIX_SECONDS,
            None => true,
        };
        self.author_id != 0 && created_ok && edited_ok
    }
}

} // verus!
