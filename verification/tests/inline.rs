use hangitbot::inline_query::{chosen_hang_target, inline_results};
use hangitbot::utils::hanged_name;

const SELVES: [&str; 3] = [
    " 承受不了自己所做的一切，选择了自行了断……",
    " 来说，把自己吊在路灯上可能是最好的选择了……",
    " 最终还是选择了逃避……",
];

#[test]
fn username_query_gives_nothing() {
    let r = inline_results(&"@boss".to_string(), &"Ann".to_string(), &Some(vec!["Bob".to_string()]));
    assert!(r.is_empty());
}

#[test]
fn query_alone() {
    let r = inline_results(&"boss".to_string(), &"Ann".to_string(), &None);
    assert_eq!(r.len(), 1);
    assert_eq!(r[0].id, "boss");
    assert_eq!(r[0].title, "吊起来 boss");
    assert_eq!(hanged_name(&r[0].text), Some("boss".to_string()));
}

#[test]
fn found_names_come_first() {
    let found = Some(vec!["Bob".to_string(), "Ann".to_string()]);
    let r = inline_results(&"b".to_string(), &"Ann".to_string(), &found);
    assert_eq!(r.len(), 3);
    assert_eq!(r[0].id, "Bob");
    assert_eq!(r[1].id, "Ann");
    assert_eq!(r[2].id, "b");
    assert_eq!(r[1].title, "吊起来 Ann");
    assert!(SELVES.iter().any(|s| r[1].text == format!("Ann{}", s) || r[1].text.ends_with(s)));
    for a in &r {
        assert_eq!(hanged_name(&a.text), Some(a.id.clone()));
    }
}

#[test]
fn names_are_not_escaped_inline() {
    let r = inline_results(&"a.b".to_string(), &"x".to_string(), &Some(vec![]));
    assert_eq!(r.len(), 1);
    assert!(r[0].text.contains("a.b"));
    assert!(!r[0].text.contains("a\\.b"));
}

#[test]
fn picking_the_bare_at_counts_nothing() {
    assert_eq!(chosen_hang_target("@"), None);
}

#[test]
fn picking_a_name_counts_it() {
    assert_eq!(chosen_hang_target("Bob"), Some("Bob".to_string()));
    assert_eq!(chosen_hang_target("@Bob"), Some("@Bob".to_string()));
    assert_eq!(chosen_hang_target(""), Some("".to_string()));
}
