use vstd::prelude::*;

verus! {

/// The bot's settings, as read from the command line and the environment.
pub struct Args {
    /// Enable debug mode
    pub debug: bool,
    /// Telegram bot token
    pub tgbot_token: String,
    /// Database URI
    pub database_uri: String,
    /// Api Server URL
    pub api_url: String,
    /// GroupID blacklisted
    pub group_banned: Vec<i64>,
}

/// Whether `chat_id` is one of the blacklisted groups.
pub fn is_group_banned(group_banned: &Vec<i64>, chat_id: i64) -> (r: bool)
    ensures
        r == group_banned@.contains(chat_id),
{
    let mut i: usize = 0;
    while i < group_banned.len()
        invariant
            i <= group_banned.len(),
            forall|j: int| 0 <= j < i ==> group_banned@[j] != chat_id,
        decreases group_banned.len() - i,
    {
        if group_banned[i] == chat_id {
            return true;
        }
        i = i + 1;
    }
    false
}

} // verus!
