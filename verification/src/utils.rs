//! The hanging texts: writing them, and recognising them in a chat.
use vstd::prelude::*;
use crate::markdown::{escape, escaped};
use crate::messages::{
    hang_prefix, hang_suffix, hang_template, hang_template_text, lemma_hang_template_shape,
    lemma_suffix_marks, name_placeholder, suffix_mark, suffix_mark2, HANGED_COUNT,
    HANGED_SELF_COUNT, TEMPLATE_COUNT,
};
use crate::pattern::{
    any_group, capture_pattern, compile, ends_with, first_group, lemma_replaced_front,
    lemma_replaced_skip, lemma_replaced_short, literal_capture, opt_view, regex_literal,
    replace_all, replaced, single_line,
};
use crate::users::UserInfo;
use crate::template::{
    fill_template, lemma_render_placeholder, lemma_render_plain, lemma_render_prefix, lookup,
    no_braces, pairs_view, plain_key, render,
};

verus! {

/// Passed as `is_self` when the person hanged is the one who asked for it.
pub const IS_SELF: bool = true;

/// Passed as `need_escape` when the text is sent as MarkdownV2.
pub const NEED_ESCAPE: bool = true;

/// The index of the hanging text picked by `choice`: one of those for
/// hanging oneself, or one of those for hanging someone else.
pub open spec fn template_index(is_self: bool, choice: nat) -> int {
    if is_self {
        HANGED_COUNT + (choice % (HANGED_SELF_COUNT as nat)) as int
    } else {
        (choice % (HANGED_COUNT as nat)) as int
    }
}

/// Whether `k` is the index of a hanging text of the kind `is_self` asks for.
pub open spec fn template_of_kind(is_self: bool, k: int) -> bool {
    if is_self {
        HANGED_COUNT <= k < TEMPLATE_COUNT
    } else {
        0 <= k < HANGED_COUNT
    }
}

/// The name as it is shown: escaped for MarkdownV2 where that is asked for.
pub open spec fn shown_name(name: Seq<char>, need_escape: bool) -> Seq<char> {
    if need_escape {
        escaped(name)
    } else {
        name
    }
}

/// The `k`-th hanging text, with `shown` in place of the name.
pub open spec fn hang_text(shown: Seq<char>, k: int) -> Seq<char> {
    hang_prefix(k) + shown + hang_suffix(k)
}

/// The hanging text that `choice` picks for `name`.
pub open spec fn hangit_text_spec(name: Seq<char>, is_self: bool, need_escape: bool, choice: nat) -> Seq<char> {
    hang_text(shown_name(name, need_escape), template_index(is_self, choice))
}

/// Calls `rand::Rng::gen::<usize>` on `rand::rngs::OsRng`. Nothing is
/// claimed of the number drawn.
#[verifier::external_body]
pub(crate) fn random_choice() -> usize {
    rand::Rng::gen::<usize>(&mut rand::rngs::OsRng)
}

/// The key of the name placeholder.
fn name_key() -> (r: String)
    ensures
        r@ == seq!['n', 'a', 'm', 'e'],
{
    proof {
        reveal_strlit("name");
    }
    String::from_str("name")
}

/// Braces are markup for a regular expression too.
proof fn lemma_literal_no_braces(s: Seq<char>)
    requires
        regex_literal(s),
    ensures
        no_braces(s),
{
    assert forall|i: int| 0 <= i < s.len() implies s[i] != '{' && s[i] != '}' by {
        assert(!crate::pattern::is_regex_meta(s[i]));
    }
}

/// The `k`-th template filled with a value for the name gives the hanging
/// text with that value.
proof fn lemma_fill_hang_template(k: int, key: Seq<char>, vars: Seq<(Seq<char>, Seq<char>)>, v: Seq<char>)
    requires
        0 <= k < TEMPLATE_COUNT,
        key == seq!['n', 'a', 'm', 'e'],
        lookup(vars, key) == Some(v),
    ensures
        render(hang_template_text(k), vars) == Some(hang_text(v, k)),
{
    lemma_hang_template_shape(k);
    let p = hang_prefix(k);
    let s = hang_suffix(k);
    lemma_literal_no_braces(p);
    lemma_literal_no_braces(s);
    assert(name_placeholder() =~= seq!['{'] + key + seq!['}']);
    assert(hang_template_text(k) =~= p + (seq!['{'] + key + seq!['}'] + s));
    assert(plain_key(key)) by {
        assert(!key.contains(':')) by {
            if key.contains(':') {
                let i = choose|i: int| 0 <= i < key.len() && key[i] == ':';
            }
        }
    }
    lemma_render_plain(s, vars);
    lemma_render_placeholder(key, s, vars, v);
    lemma_render_prefix(p, seq!['{'] + key + seq!['}'] + s, vars);
}

/// The hanging text that `choice` picks for `name`: for hanging oneself
/// when `is_self`, else for hanging someone else; the name escaped for
/// MarkdownV2 when `need_escape`.
pub fn hangit_text_at(name: String, is_self: bool, need_escape: bool, choice: usize) -> (r: String)
    ensures
        r@ == hangit_text_spec(name@, is_self, need_escape, choice as nat),
{
    let k: usize = if is_self {
        HANGED_COUNT + choice % HANGED_SELF_COUNT
    } else {
        choice % HANGED_COUNT
    };
    let template = hang_template(k);
    let shown = if need_escape {
        escape(name.as_str())
    } else {
        name
    };
    let ghost shown_view = shown@;
    let mut vars: Vec<(String, String)> = Vec::new();
    vars.push((name_key(), shown));
    proof {
        let pv = pairs_view(vars@);
        assert(pv.len() == 1);
        assert(pv.last() == (seq!['n', 'a', 'm', 'e'], shown_view));
        lemma_fill_hang_template(k as int, seq!['n', 'a', 'm', 'e'], pv, shown_view);
    }
    match fill_template(template, &vars) {
        Ok(text) => text,
        Err(_) => {
            proof {
                assert(false);
            }
            String::new()
        },
    }
}

/// A hanging text for `name`, picked at random among those for hanging
/// oneself when `is_self`, else among those for hanging someone else; the
/// name escaped for MarkdownV2 when `need_escape`.
pub fn hangit_text(name: String, is_self: bool, need_escape: bool) -> (r: String)
    ensures
        exists|k: int|
            template_of_kind(is_self, k) && r@ == #[trigger] hang_text(
                shown_name(name@, need_escape),
                k,
            ),
{
    let choice = random_choice();
    let r = hangit_text_at(name, is_self, need_escape, choice);
    assert(template_of_kind(is_self, template_index(is_self, choice as nat)));
    r
}

/// What the hanging texts from the `k`-th on recognise in `text`: the name
/// captured by the first of them that the text follows.
pub open spec fn match_from(text: Seq<char>, k: int) -> Option<Seq<char>>
    decreases TEMPLATE_COUNT - k,
{
    if 0 <= k < TEMPLATE_COUNT {
        match literal_capture(hang_prefix(k), hang_suffix(k), text) {
            Some(n) => Some(n),
            None => match_from(text, k + 1),
        }
    } else {
        None
    }
}

/// The name of the person that `text` tells of as hanged: the name in the
/// first hanging text that `text` follows, if any.
pub open spec fn hanged_name_spec(text: Seq<char>) -> Option<Seq<char>> {
    match_from(text, 0)
}

/// The expression that recognises the `k`-th hanging text, with the name
/// as its capture group.
proof fn lemma_recognising_pattern(k: int, template: Seq<char>, body: Seq<char>, from: Seq<char>, to: Seq<char>)
    requires
        0 <= k < TEMPLATE_COUNT,
        template == hang_template_text(k),
        from == name_placeholder(),
        to == any_group(),
        body == replaced(template, from, to),
    ensures
        seq!['^'] + body + seq!['$'] == capture_pattern(hang_prefix(k), hang_suffix(k)),
        capture_pattern(hang_prefix(k), hang_suffix(k)).len() <= 1024,
        regex_literal(hang_prefix(k)),
        regex_literal(hang_suffix(k)),
{
    lemma_hang_template_shape(k);
    let p = hang_prefix(k);
    let s = hang_suffix(k);
    lemma_literal_no_braces(p);
    lemma_literal_no_braces(s);
    assert(template =~= p + (from + s));
    lemma_replaced_skip(p, from + s, from, to);
    lemma_replaced_front(s, from, to);
    lemma_replaced_skip(s, Seq::empty(), from, to);
    lemma_replaced_short(Seq::<char>::empty(), from, to);
    assert(s + Seq::<char>::empty() =~= s);
    assert(body =~= p + to + s);
    assert(seq!['^'] + body + seq!['$'] =~= capture_pattern(p, s));
}

/// The name of the person that `text` tells of as hanged: each hanging
/// text, in order, is made into the expression `^prefix(.+)suffix$`, and
/// the first that matches gives the name it captures.
pub fn hanged_name(text: &str) -> (r: Option<String>)
    ensures
        opt_view(r) == hanged_name_spec(text@),
{
    let placeholder = "{name}";
    let group = "(.+)";
    proof {
        reveal_strlit("{name}");
        reveal_strlit("(.+)");
        reveal_strlit("^");
        reveal_strlit("$");
        assert(placeholder@ =~= name_placeholder());
        assert(group@ =~= any_group());
    }
    let mut k: usize = 0;
    while k < TEMPLATE_COUNT
        invariant
            k <= TEMPLATE_COUNT,
            placeholder@ == name_placeholder(),
            group@ == any_group(),
            match_from(text@, 0) == match_from(text@, k as int),
        decreases TEMPLATE_COUNT - k,
    {
        let template = hang_template(k);
        let body = replace_all(template, placeholder, group);
        let mut source = String::from_str("^");
        source.append(body.as_str());
        source.append("$");
        let ghost source_view = source@;
        proof {
            lemma_recognising_pattern(k as int, template@, body@, placeholder@, group@);
            reveal_strlit("^");
            reveal_strlit("$");
            assert("^"@ =~= seq!['^']);
            assert("$"@ =~= seq!['$']);
            assert(source_view =~= seq!['^'] + body@ + seq!['$']);
        }
        match compile(source) {
            Ok(pattern) => {
                let found = first_group(&pattern, text);
                match found {
                    Some(name) => {
                        return Some(name);
                    },
                    None => {},
                }
            },
            Err(_) => {
                proof {
                    assert(false);
                }
            },
        }
        k = k + 1;
    }
    None
}

/// The name whose hanging should be credited to the chat a message came
/// from: the name in the message's text, when the message is a hanging
/// text sent through this bot itself (a bot whose id is `me_id`).
pub fn group_update_target(text: Option<&str>, via_bot: &Option<UserInfo>, me_id: u64) -> (r: Option<String>)
    ensures
        opt_view(r) == (match (text, via_bot) {
            (Some(t), Some(b)) => if b.is_bot && b.id == me_id {
                hanged_name_spec(t@)
            } else {
                None
            },
            _ => None,
        }),
{
    match text {
        Some(t) => match via_bot {
            Some(b) => {
                if b.is_bot && b.id == me_id {
                    hanged_name(t)
                } else {
                    None
                }
            },
            None => None,
        },
        None => None,
    }
}

/// Two different hanging texts never end alike.
proof fn lemma_suffixes_exclusive(t: Seq<char>, a: int, b: int)
    requires
        0 <= a < TEMPLATE_COUNT,
        0 <= b < TEMPLATE_COUNT,
        a != b,
        ends_with(t, hang_suffix(b)),
    ensures
        !ends_with(t, hang_suffix(a)),
{
    lemma_suffix_marks(a);
    lemma_suffix_marks(b);
    if ends_with(t, hang_suffix(a)) {
        let sa = hang_suffix(a);
        let sb = hang_suffix(b);
        assert(t.skip(t.len() - sa.len())[sa.len() - 3] == t[t.len() - 3]);
        assert(t.skip(t.len() - sb.len())[sb.len() - 3] == t[t.len() - 3]);
        assert(t.skip(t.len() - sa.len())[sa.len() - 4] == t[t.len() - 4]);
        assert(t.skip(t.len() - sb.len())[sb.len() - 4] == t[t.len() - 4]);
        assert(suffix_mark(a) == suffix_mark(b));
        assert(suffix_mark2(a) == suffix_mark2(b));
    }
}

/// Hanging texts that the text does not follow are passed over.
proof fn lemma_match_skip(text: Seq<char>, j: int, k: int)
    requires
        0 <= j <= k < TEMPLATE_COUNT,
        forall|i: int|
            j <= i < k ==> #[trigger] literal_capture(hang_prefix(i), hang_suffix(i), text) is None,
    ensures
        match_from(text, j) == match_from(text, k),
    decreases k - j,
{
    if j < k {
        lemma_match_skip(text, j + 1, k);
        assert(literal_capture(hang_prefix(j), hang_suffix(j), text) is None);
    }
}

/// A hanging text that the bot wrote for a name without escaping it, where
/// the name is not empty and holds no line break, is recognised as the
/// hanging of that very name.
pub proof fn law_hang_text_recognised(name: Seq<char>, k: int)
    requires
        0 <= k < TEMPLATE_COUNT,
        name.len() > 0,
        single_line(name),
    ensures
        hanged_name_spec(hang_text(name, k)) == Some(name),
{
    let text = hang_text(name, k);
    let p = hang_prefix(k);
    let s = hang_suffix(k);
    lemma_hang_template_shape(k);
    assert(text.take(p.len() as int) =~= p);
    assert(text.skip(text.len() - s.len()) =~= s);
    assert(text.subrange(p.len() as int, text.len() - s.len()) =~= name);
    assert(literal_capture(p, s, text) == Some(name));
    assert forall|i: int| 0 <= i < k implies #[trigger] literal_capture(
        hang_prefix(i),
        hang_suffix(i),
        text,
    ) is None by {
        lemma_suffixes_exclusive(text, i, k);
    }
    lemma_match_skip(text, 0, k);
}

/// Whatever text `hangit_text` picks for a name, unescaped, it is
/// recognised as the hanging of that name (for a name that is not empty and
/// holds no line break).
pub proof fn law_hangit_text_recognised(name: Seq<char>, is_self: bool, k: int)
    requires
        template_of_kind(is_self, k),
        name.len() > 0,
        single_line(name),
    ensures
        hanged_name_spec(hang_text(shown_name(name, !crate::utils::NEED_ESCAPE), k)) == Some(name),
{
    law_hang_text_recognised(name, k);
}

/// What the hanging texts from the `k`-th on recognise is a name, not
/// empty and without line break, of which the text is the hanging text.
proof fn lemma_match_from_sound(text: Seq<char>, k: int)
    requires
        0 <= k,
    ensures
        match_from(text, k) matches Some(n) ==> (n.len() > 0 && single_line(n) && exists|j: int|
            0 <= j < TEMPLATE_COUNT && text == #[trigger] hang_text(n, j)),
    decreases TEMPLATE_COUNT - k,
{
    if 0 <= k < TEMPLATE_COUNT {
        let p = hang_prefix(k);
        let s = hang_suffix(k);
        match literal_capture(p, s, text) {
            Some(n) => {
                assert(text =~= p + n + s) by {
                    assert(text.take(p.len() as int) == p);
                    assert(text.skip(text.len() - s.len()) == s);
                    assert(text =~= text.take(p.len() as int) + text.subrange(
                        p.len() as int,
                        text.len() - s.len(),
                    ) + text.skip(text.len() - s.len()));
                }
                assert(text == hang_text(n, k));
            },
            None => {
                lemma_match_from_sound(text, k + 1);
            },
        }
    }
}

/// Whatever name a text is recognised as the hanging of, the name is not
/// empty, holds no line break, and the text is one of the hanging texts
/// with that name in it.
pub proof fn law_recognised_text_is_hang_text(text: Seq<char>)
    ensures
        hanged_name_spec(text) matches Some(n) ==> (n.len() > 0 && single_line(n) && exists|k: int|
            0 <= k < TEMPLATE_COUNT && text == #[trigger] hang_text(n, k)),
{
    lemma_match_from_sound(text, 0);
}

/// Whatever text is picked, a hanging text asked for with escaping shows
/// the name escaped for MarkdownV2 (a backslash before every special
/// character) between the prefix and the suffix of a template of the asked
/// kind, and one asked for without escaping shows the name as it is; asking
/// with escaping is asking without it for the escaped name.
pub proof fn law_hang_text_shows_name(name: Seq<char>, is_self: bool, choice: nat)
    ensures
        exists|k: int|
            template_of_kind(is_self, k) && hangit_text_spec(name, is_self, true, choice) == #[trigger] hang_prefix(k)
                + escaped(name) + hang_suffix(k),
        exists|k: int|
            template_of_kind(is_self, k) && hangit_text_spec(name, is_self, false, choice) == #[trigger] hang_prefix(k)
                + name + hang_suffix(k),
        hangit_text_spec(name, is_self, true, choice) == hangit_text_spec(escaped(name), is_self, false, choice),
{
    let k = template_index(is_self, choice);
    assert(template_of_kind(is_self, k));
    assert(hangit_text_spec(name, is_self, true, choice) == hang_prefix(k) + escaped(name) + hang_suffix(k));
    assert(hangit_text_spec(name, is_self, false, choice) == hang_prefix(k) + name + hang_suffix(k));
}

} // verus!
