//! One conversational turn, as it is handed to the persistence layer.
//!
//! A turn is immutable once built: a role, the message text, a
//! server-assigned timestamp, and the record handle that the store assigns
//! on a successful write (absent until then). Timestamps are milliseconds
//! since the Unix epoch; the store's record identifier is carried as plain
//! text.

use vstd::prelude::*;
use vstd::string::*;

verus! {

/// The role attributed to a turn's author.
pub open spec fn spec_user_role() -> Seq<char> {
    "user"@
}

/// The role attributed to the relay's reply.
pub open spec fn spec_assistant_role() -> Seq<char> {
    "assistant"@
}

/// The role string for an inbound turn.
pub fn user_role() -> (r: String)
    ensures
        r@ == spec_user_role(),
{
    String::from_str("user")
}

/// The role string for a generated turn.
pub fn assistant_role() -> (r: String)
    ensures
        r@ == spec_assistant_role(),
{
    String::from_str("assistant")
}

/// One role-attributed message of the conversation, persisted as a single
/// record.
pub struct ChatMessage {
    pub role: String,
    pub content: String,
    /// Milliseconds since the Unix epoch.
    pub timestamp: i64,
    /// The store-assigned record handle; present only after a successful
    /// write.
    pub id: Option<String>,
}

impl ChatMessage {
    /// The roles a turn may carry.
    pub open spec fn valid_role(self) -> bool {
        self.role@ == spec_user_role() || self.role@ == spec_assistant_role()
    }

    /// Build a turn that has not been persisted yet.
    pub fn new(role: String, content: String, timestamp: i64) -> (m: ChatMessage)
        ensures
            m.role == role,
            m.content == content,
            m.timestamp == timestamp,
            m.id is None,
    {
        ChatMessage { role, content, timestamp, id: None }
    }

    /// Build a turn stamped with the current wall-clock time.
    pub fn stamped_now(role: String, content: String) -> (m: ChatMessage)
        ensures
            m.role == role,
            m.content == content,
            m.timestamp >= 0,
            m.id is None,
    {
        let t = now_timestamp_millis();
        ChatMessage { role, content, timestamp: t, id: None }
    }

    /// The turn as returned by a successful write: the same record, now
    /// carrying the handle the store assigned.
    pub fn with_id(self, id: String) -> (m: ChatMessage)
        ensures
            m.role == self.role,
            m.content == self.content,
            m.timestamp == self.timestamp,
            m.id == Some(id),
    {
        ChatMessage { role: self.role, content: self.content, timestamp: self.timestamp, id: Some(id) }
    }
}

/// Relies on `chrono::Utc::now` for the current wall-clock instant and on
/// `chrono::DateTime::timestamp_millis` to read it as milliseconds since
/// the Unix epoch. `now` only returns instants at or after the epoch (it
/// does not return on a clock set before 1970), so the reading is never
/// negative; nothing else can be promised of a clock.
#[verifier::external_body]
pub fn now_timestamp_millis() -> (t: i64)
    ensures
        t >= 0,
{
    chrono::Utc::now().timestamp_millis()
}

} // verus!
