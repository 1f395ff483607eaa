use hangitbot::commands::top_text;
use hangitbot::db_controller::TopData;
use hangitbot::messages::{
    hang_template, BOT_TEXT_HANGED_1, BOT_TEXT_HANGED_2, BOT_TEXT_HANGED_SELF_1,
    BOT_TEXT_HANGED_SELF_3, TEMPLATE_COUNT,
};
use hangitbot::utils::{group_update_target, hanged_name, hangit_text, hangit_text_at};
use hangitbot::users::UserInfo;

const OTHERS: [&str; 6] = [
    "{} 被吊路灯了，绳子是昨天他卖出去的……",
    "因为 {} 太过逆天，我们把 TA 吊在了路灯上……",
    "{} 吊在了路灯上，TA 兴风作浪的时代结束了……",
    "吊在路灯上的 {} 正在接受大家的鄙视……",
    "对 {} 来说，绳命来得快去得也快，只有路灯是永恒的……",
    "被套上麻袋的 {} 在经历了一顿胖揍之后，最后还是成了路灯的挂件……",
];

const SELVES: [&str; 3] = [
    "{} 承受不了自己所做的一切，选择了自行了断……",
    "对于 {} 来说，把自己吊在路灯上可能是最好的选择了……",
    "{} 最终还是选择了逃避……",
];

fn with_name(template: &str, name: &str) -> String {
    template.replace("{}", name)
}

fn bot(id: u64) -> UserInfo {
    UserInfo { id, is_bot: true, first_name: "Hang".to_string(), last_name: None }
}

fn escaped_by_top(name: &str) -> String {
    let t = top_text(false, &Some(vec![TopData { name: name.to_string(), counts: "1".to_string() }]));
    let line = t.strip_prefix("**吊人排行榜**\\-全球\n\n1\\. ").unwrap();
    line.strip_suffix(" 被吊了 1 次\n").unwrap().to_string()
}

#[test]
fn escape_marks_every_special_character() {
    assert_eq!(escaped_by_top("a_b*c[d]e(f)g~h`i>j#k+l-m=n|o{p}q.r!s"),
        "a\\_b\\*c\\[d\\]e\\(f\\)g\\~h\\`i\\>j\\#k\\+l\\-m\\=n\\|o\\{p\\}q\\.r\\!s");
}

#[test]
fn escape_keeps_plain_text() {
    assert_eq!(escaped_by_top("老板 Bob"), "老板 Bob");
    assert_eq!(escaped_by_top(""), "");
}

#[test]
fn templates_in_order() {
    assert_eq!(hang_template(0), BOT_TEXT_HANGED_1);
    assert_eq!(hang_template(1), BOT_TEXT_HANGED_2);
    assert_eq!(hang_template(6), BOT_TEXT_HANGED_SELF_1);
    assert_eq!(hang_template(8), BOT_TEXT_HANGED_SELF_3);
}

#[test]
fn hangit_text_at_picks_by_choice() {
    assert_eq!(hangit_text_at("Bob".to_string(), false, false, 0), with_name(OTHERS[0], "Bob"));
    assert_eq!(hangit_text_at("Bob".to_string(), false, false, 7), with_name(OTHERS[1], "Bob"));
    assert_eq!(hangit_text_at("Bob".to_string(), false, false, 5), with_name(OTHERS[5], "Bob"));
    assert_eq!(hangit_text_at("Bob".to_string(), true, false, 0), with_name(SELVES[0], "Bob"));
    assert_eq!(hangit_text_at("Bob".to_string(), true, false, 5), with_name(SELVES[2], "Bob"));
    assert_eq!(hangit_text_at("Bob".to_string(), true, false, usize::MAX), with_name(SELVES[0], "Bob"));
}

#[test]
fn hangit_text_at_escapes_when_asked() {
    assert_eq!(hangit_text_at("a.b_c".to_string(), false, true, 0), with_name(OTHERS[0], "a\\.b\\_c"));
    assert_eq!(hangit_text_at("a.b_c".to_string(), false, false, 0), with_name(OTHERS[0], "a.b_c"));
}

#[test]
fn hangit_text_at_keeps_braces_in_the_name() {
    assert_eq!(hangit_text_at("{name}".to_string(), false, false, 3), with_name(OTHERS[3], "{name}"));
}

#[test]
fn hangit_text_is_of_the_right_kind() {
    for _ in 0..50 {
        let t = hangit_text("Eve".to_string(), false, false);
        assert!(OTHERS.iter().any(|o| with_name(o, "Eve") == t));
        let s = hangit_text("Eve".to_string(), true, false);
        assert!(SELVES.iter().any(|o| with_name(o, "Eve") == s));
    }
}

#[test]
fn hanged_name_recognises_every_template() {
    for t in OTHERS.iter().chain(SELVES.iter()) {
        assert_eq!(hanged_name(&with_name(t, "Alice")), Some("Alice".to_string()));
    }
}

#[test]
fn hanged_name_ignores_other_texts() {
    assert_eq!(hanged_name("hello"), None);
    assert_eq!(hanged_name(""), None);
    assert_eq!(hanged_name(&format!("{}!", with_name(OTHERS[0], "Alice"))), None);
}

#[test]
fn hanged_name_needs_a_name() {
    assert_eq!(hanged_name(&with_name(OTHERS[0], "")), None);
    assert_eq!(hanged_name(&with_name(OTHERS[3], "")), None);
}

#[test]
fn hanged_name_rejects_line_breaks() {
    assert_eq!(hanged_name(&with_name(OTHERS[0], "Al\nice")), None);
}

#[test]
fn hanged_name_keeps_spaces_and_markup() {
    assert_eq!(hanged_name(&with_name(OTHERS[4], "a (b) * c")), Some("a (b) * c".to_string()));
}

#[test]
fn own_texts_round_trip() {
    for name in ["Bob", "老王", "x y z", "a.b", "{count}"] {
        for choice in 0..12usize {
            for is_self in [false, true] {
                let text = hangit_text_at(name.to_string(), is_self, false, choice);
                assert_eq!(hanged_name(&text), Some(name.to_string()));
            }
        }
    }
    assert_eq!(TEMPLATE_COUNT, 9);
}

#[test]
fn group_update_from_own_bot() {
    let text = with_name(OTHERS[2], "Carol");
    assert_eq!(group_update_target(Some(&text), &Some(bot(42)), 42), Some("Carol".to_string()));
}

#[test]
fn group_update_ignores_other_senders() {
    let text = with_name(OTHERS[2], "Carol");
    assert_eq!(group_update_target(Some(&text), &Some(bot(7)), 42), None);
    let mut human = bot(42);
    human.is_bot = false;
    assert_eq!(group_update_target(Some(&text), &Some(human), 42), None);
    assert_eq!(group_update_target(Some(&text), &None, 42), None);
    assert_eq!(group_update_target(None, &Some(bot(42)), 42), None);
}

#[test]
fn group_update_ignores_foreign_text() {
    assert_eq!(group_update_target(Some("just chatting"), &Some(bot(42)), 42), None);
}
