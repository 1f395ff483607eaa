//! The decisions behind the bot's statistics of hangings.
use vstd::prelude::*;

verus! {

/// The most rows that a search or the leaderboard returns.
pub const LIMIT: u64 = 10;

/// The group id under which hangings made through inline mode are counted
/// until a message in a group shows where they happened.
pub const UNKNOWN_GROUP: i64 = 0;

/// One line of the leaderboard: a name and how often it was hanged, the
/// count written as the decimal number the database gave.
pub struct TopData {
    pub name: String,
    pub counts: String,
}

/// The count of a name in a group after one more hanging: one more than the
/// count on record, or one for a name not on record.
pub fn next_count(existing: Option<i64>) -> (r: i64)
    requires
        existing matches Some(c) ==> c < i64::MAX,
    ensures
        r == (match existing {
            Some(c) => c + 1,
            None => 1,
        }),
{
    match existing {
        Some(c) => c + 1,
        None => 1,
    }
}

/// The group that the leaderboard of a chat is restricted to: the chat
/// itself in a group or supergroup, and none (all groups) elsewhere.
pub fn top_group_filter(in_group: bool, chat_id: i64) -> (r: Option<i64>)
    ensures
        r == (if in_group {
            Some(chat_id)
        } else {
            None
        }),
{
    if in_group {
        Some(chat_id)
    } else {
        None
    }
}

} // verus!
