//! Telegram users, as the bot's logic sees them, and what `teloxide`
//! knows of them.
use vstd::prelude::*;

verus! {

/// A Telegram user, by the values the bot's logic reads.
pub struct UserInfo {
    pub id: u64,
    pub is_bot: bool,
    pub first_name: String,
    pub last_name: Option<String>,
}

/// The id that Telegram gives the anonymous administrator of a group.
pub open spec fn anonymous_user_id() -> u64 {
    1087968824
}

/// The id that Telegram gives messages sent on behalf of a channel.
pub open spec fn channel_user_id() -> u64 {
    136817688
}

/// Calls `teloxide::types::UserId::is_anonymous`, which compares the id
/// with the one of the group's anonymous administrator.
#[verifier::external_body]
pub(crate) fn is_anonymous(id: u64) -> (r: bool)
    ensures
        r == (id == anonymous_user_id()),
{
    teloxide::types::UserId(id).is_anonymous()
}

/// Calls `teloxide::types::UserId::is_channel`, which compares the id with
/// the one of the user that speaks for channels.
#[verifier::external_body]
pub(crate) fn is_channel(id: u64) -> (r: bool)
    ensures
        r == (id == channel_user_id()),
{
    teloxide::types::UserId(id).is_channel()
}

/// The full name of a user: the first name, then a space and the last name
/// where there is one.
pub open spec fn full_name_of(first_name: Seq<char>, last_name: Option<Seq<char>>) -> Seq<char> {
    match last_name {
        Some(l) => first_name + seq![' '] + l,
        None => first_name,
    }
}

/// Calls `teloxide::types::User::full_name` on a user with these names,
/// which gives the first name, followed by a space and the last name where
/// there is one.
#[verifier::external_body]
pub(crate) fn full_name(first_name: &String, last_name: &Option<String>) -> (r: String)
    ensures
        r@ == full_name_of(
            first_name@,
            match last_name {
                Some(l) => Some(l@),
                None => None,
            },
        ),
{
    teloxide::types::User {
        id: teloxide::types::UserId(0),
        is_bot: false,
        first_name: first_name.clone(),
        last_name: last_name.clone(),
        username: None,
        language_code: None,
        is_premium: false,
        added_to_attachment_menu: false,
    }.full_name()
}

} // verus!
