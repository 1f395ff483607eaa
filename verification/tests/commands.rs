use hangitbot::commands::{hangit_reply, hangit_reply_at, top_text, Commands, ReplyTarget};
use hangitbot::config::is_group_banned;
use hangitbot::db_controller::{next_count, top_group_filter, TopData, LIMIT, UNKNOWN_GROUP};
use hangitbot::messages::{
    BOT_TEXT_HANG_ANONYMOUS, BOT_TEXT_HANG_BOT, BOT_TEXT_HANG_CHANNEL, BOT_TEXT_IS_CHANNEL,
    BOT_TEXT_NO_TARGET, BOT_TEXT_TOP_NONE,
};
use hangitbot::users::UserInfo;
use hangitbot::utils::hanged_name;

fn user(id: u64, first: &str, last: Option<&str>) -> UserInfo {
    UserInfo {
        id,
        is_bot: false,
        first_name: first.to_string(),
        last_name: last.map(|l| l.to_string()),
    }
}

fn entry(name: &str, counts: &str) -> TopData {
    TopData { name: name.to_string(), counts: counts.to_string() }
}

#[test]
fn default_command_is_help() {
    assert!(Commands::default() == Commands::Help);
}

#[test]
fn banned_groups() {
    let banned = vec![-100, 5, 7];
    assert!(is_group_banned(&banned, 5));
    assert!(is_group_banned(&banned, -100));
    assert!(!is_group_banned(&banned, 6));
    assert!(!is_group_banned(&vec![], 5));
}

#[test]
fn hangit_without_reply() {
    let r = hangit_reply_at(&ReplyTarget::NoReply, &Some("Bob".to_string()), 0);
    assert!(!r.to_replied);
    assert_eq!(r.text, BOT_TEXT_NO_TARGET);
    assert_eq!(r.hanged, None);
}

#[test]
fn hangit_without_sender() {
    let r = hangit_reply_at(&ReplyTarget::NoSender, &None, 0);
    assert!(!r.to_replied);
    assert_eq!(r.text, BOT_TEXT_IS_CHANNEL);
    assert_eq!(r.hanged, None);
}

#[test]
fn hangit_a_bot() {
    let mut u = user(99, "Robo", None);
    u.is_bot = true;
    let r = hangit_reply_at(&ReplyTarget::Sender(u), &None, 0);
    assert_eq!(r.text, BOT_TEXT_HANG_BOT);
    assert_eq!(r.hanged, None);
    assert!(!r.to_replied);
}

#[test]
fn hangit_the_anonymous_admin() {
    let r = hangit_reply_at(&ReplyTarget::Sender(user(1087968824, "Group", None)), &None, 0);
    assert_eq!(r.text, BOT_TEXT_HANG_ANONYMOUS);
    assert_eq!(r.hanged, None);
}

#[test]
fn hangit_a_channel() {
    let r = hangit_reply_at(&ReplyTarget::Sender(user(136817688, "Channel", None)), &None, 0);
    assert_eq!(r.text, BOT_TEXT_HANG_CHANNEL);
    assert_eq!(r.hanged, None);
}

#[test]
fn hangit_someone() {
    let r = hangit_reply_at(&ReplyTarget::Sender(user(5, "Bo_b", Some("Smith"))), &Some("Ann".to_string()), 1);
    assert!(r.to_replied);
    assert_eq!(r.hanged, Some("Bo_b Smith".to_string()));
    assert_eq!(r.text, "因为 Bo\\_b 太过逆天，我们把 TA 吊在了路灯上……");
}

#[test]
fn hangit_oneself() {
    let r = hangit_reply_at(&ReplyTarget::Sender(user(5, "Bob", None)), &Some("Bob".to_string()), 2);
    assert!(r.to_replied);
    assert_eq!(r.hanged, Some("Bob".to_string()));
    assert_eq!(r.text, "Bob 最终还是选择了逃避……");
}

#[test]
fn hangit_random_text_names_the_user() {
    let r = hangit_reply(&ReplyTarget::Sender(user(5, "Dave", None)), &None);
    assert!(r.to_replied);
    assert_eq!(r.hanged, Some("Dave".to_string()));
    assert_eq!(hanged_name(&r.text), Some("Dave".to_string()));
}

#[test]
fn top_unavailable() {
    assert_eq!(top_text(true, &None), BOT_TEXT_TOP_NONE);
}

#[test]
fn top_empty() {
    assert_eq!(top_text(true, &Some(vec![])), "**吊人排行榜**\\-群内\n\n");
    assert_eq!(top_text(false, &Some(vec![])), "**吊人排行榜**\\-全球\n\n");
}

#[test]
fn top_lines_are_ranked_and_escaped() {
    let t = top_text(false, &Some(vec![entry("a_b", "12"), entry("老王", "3")]));
    assert_eq!(t, "**吊人排行榜**\\-全球\n\n1\\. a\\_b 被吊了 12 次\n2\\. 老王 被吊了 3 次\n");
}

#[test]
fn top_ranks_past_nine() {
    let entries: Vec<TopData> = (0..11).map(|i| entry(&format!("n{}", i), "1")).collect();
    let t = top_text(true, &Some(entries));
    assert!(t.contains("\n9\\. n8 被吊了 1 次\n10\\. n9 被吊了 1 次\n11\\. n10 被吊了 1 次\n"));
}

#[test]
fn counts_go_up_by_one() {
    assert_eq!(next_count(None), 1);
    assert_eq!(next_count(Some(1)), 2);
    assert_eq!(next_count(Some(41)), 42);
}

#[test]
fn top_filter_by_chat_kind() {
    assert_eq!(top_group_filter(true, -1001), Some(-1001));
    assert_eq!(top_group_filter(false, 77), None);
    assert_eq!(LIMIT, 10);
    assert_eq!(UNKNOWN_GROUP, 0);
}
