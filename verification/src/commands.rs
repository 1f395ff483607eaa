//! The commands the bot answers, and what it answers.
use vstd::prelude::*;
use crate::db_controller::TopData;
use crate::markdown::{escape, escaped};
use crate::messages::{
    BOT_TEXT_HANG_ANONYMOUS, BOT_TEXT_HANG_BOT, BOT_TEXT_HANG_CHANNEL, BOT_TEXT_IS_CHANNEL,
    BOT_TEXT_NO_TARGET, BOT_TEXT_TOP_GLOBAL, BOT_TEXT_TOP_GROUP, BOT_TEXT_TOP_NONE,
    BOT_TEXT_TOP_TEMPLATE, BOT_TEXT_TOP_TITLE,
};
use crate::messages::{hang_prefix, hang_suffix};
use crate::pattern::{opt_view, starts_with};
use crate::template::{
    fill_template, lemma_render_placeholder, lemma_render_plain, lookup, no_braces, pairs_view,
    plain_key,
};
use crate::users::{
    anonymous_user_id, channel_user_id, full_name, full_name_of, is_anonymous, is_channel,
    UserInfo,
};
use crate::utils::{
    hangit_text_at, hangit_text_spec, law_hang_text_shows_name, random_choice, template_of_kind,
};

verus! {

/// The commands the bot understands.
#[derive(PartialEq, Eq, Structural, Debug, Clone, Copy)]
pub enum Commands {
    /// Show the help text
    Help,
    /// About this bot
    About,
    /// The leaderboard
    Top,
    /// Hang the author of the replied message up
    HangIt,
}

impl Default for Commands {
    fn default() -> (r: Self)
        ensures
            r == Commands::Help,
    {
        Commands::Help
    }
}

/// What a `/hangit` command replies to.
pub enum ReplyTarget {
    /// The command replies to no message.
    NoReply,
    /// The replied message has no sender (it was posted in a channel).
    NoSender,
    /// The replied message was sent by this user.
    Sender(UserInfo),
}

/// The bot's answer to a `/hangit` command.
pub struct HangItReply {
    /// Whether the answer replies to the replied message (else to the
    /// command itself).
    pub to_replied: bool,
    /// The text of the answer, in MarkdownV2.
    pub text: String,
    /// The full name of the person whose hanging is counted, if any.
    pub hanged: Option<String>,
}

/// The answer to a `/hangit` command as plain values: whether it replies to
/// the replied message, its text, and whose hanging it counts; `choice`
/// picks the hanging text.
pub open spec fn hangit_reply_spec(
    reply: ReplyTarget,
    sender_first_name: Option<Seq<char>>,
    choice: nat,
) -> (bool, Seq<char>, Option<Seq<char>>) {
    match reply {
        ReplyTarget::NoReply => (false, BOT_TEXT_NO_TARGET@, None),
        ReplyTarget::NoSender => (false, BOT_TEXT_IS_CHANNEL@, None),
        ReplyTarget::Sender(user) => {
            if user.is_bot {
                (false, BOT_TEXT_HANG_BOT@, None)
            } else if user.id == anonymous_user_id() {
                (false, BOT_TEXT_HANG_ANONYMOUS@, None)
            } else if user.id == channel_user_id() {
                (false, BOT_TEXT_HANG_CHANNEL@, None)
            } else {
                let is_self = sender_first_name == Some(user.first_name@);
                (
                    true,
                    hangit_text_spec(user.first_name@, is_self, true, choice),
                    Some(full_name_of(user.first_name@, opt_view(user.last_name))),
                )
            }
        },
    }
}

/// An answer by its plain values.
pub open spec fn reply_view(r: HangItReply) -> (bool, Seq<char>, Option<Seq<char>>) {
    (r.to_replied, r.text@, opt_view(r.hanged))
}

fn fixed_reply(text: &str) -> (r: HangItReply)
    ensures
        reply_view(r) == (false, text@, None::<Seq<char>>),
{
    HangItReply { to_replied: false, text: String::from_str(text), hanged: None }
}

/// The answer to `/hangit`, with `choice` picking the hanging text: a
/// refusal when there is nobody to hang (no replied message, no sender, a
/// bot, the anonymous administrator, a channel), else the hanging text for
/// the sender's first name, escaped for MarkdownV2, which is one for
/// hanging oneself when the command's sender has the same first name.
pub fn hangit_reply_at(reply: &ReplyTarget, sender_first_name: &Option<String>, choice: usize) -> (r: HangItReply)
    ensures
        reply_view(r) == hangit_reply_spec(*reply, opt_view(*sender_first_name), choice as nat),
{
    match reply {
        ReplyTarget::NoReply => fixed_reply(BOT_TEXT_NO_TARGET),
        ReplyTarget::NoSender => fixed_reply(BOT_TEXT_IS_CHANNEL),
        ReplyTarget::Sender(user) => {
            if user.is_bot {
                return fixed_reply(BOT_TEXT_HANG_BOT);
            }
            if is_anonymous(user.id) {
                return fixed_reply(BOT_TEXT_HANG_ANONYMOUS);
            }
            if is_channel(user.id) {
                return fixed_reply(BOT_TEXT_HANG_CHANNEL);
            }
            let is_self = match sender_first_name {
                Some(f) => *f == user.first_name,
                None => false,
            };
            let hanged = full_name(&user.first_name, &user.last_name);
            let text = hangit_text_at(user.first_name.clone(), is_self, true, choice);
            HangItReply { to_replied: true, text, hanged: Some(hanged) }
        },
    }
}

/// The answer to `/hangit`, with the hanging text picked at random: as
/// `hangit_reply_at` describes it, for some choice.
pub fn hangit_reply(reply: &ReplyTarget, sender_first_name: &Option<String>) -> (r: HangItReply)
    ensures
        exists|choice: nat|
            reply_view(r) == #[trigger] hangit_reply_spec(*reply, opt_view(*sender_first_name), choice),
{
    let choice = random_choice();
    hangit_reply_at(reply, sender_first_name, choice)
}

/// A decimal digit.
pub open spec fn digit(d: nat) -> char {
    (48 + d) as char
}

/// `n` written in decimal digits.
pub open spec fn decimal(n: nat) -> Seq<char>
    decreases n,
{
    if n < 10 {
        seq![digit(n)]
    } else {
        decimal(n / 10).push(digit(n % 10))
    }
}

/// Calls `ToString::to_string` on a `usize`, which (by std's `Display` for
/// integers) writes it in decimal digits, without sign or padding.
#[verifier::external_body]
fn decimal_string(n: usize) -> (r: String)
    ensures
        r@ == decimal(n as nat),
{
    n.to_string()
}

/// The title line of the leaderboard, naming its scope: the group, or the
/// whole world.
pub open spec fn top_header(in_group: bool) -> Seq<char> {
    BOT_TEXT_TOP_TITLE@ + seq!['\\', '-'] + (if in_group {
        BOT_TEXT_TOP_GROUP@
    } else {
        BOT_TEXT_TOP_GLOBAL@
    }) + seq!['\n', '\n']
}

/// The `rank`-th line of the leaderboard: the rank, then how often the
/// (escaped) name was hanged.
pub open spec fn top_line(rank: nat, entry: TopData) -> Seq<char> {
    decimal(rank) + seq!['\\', '.', ' '] + escaped(entry.name@) + " 被吊了 "@ + entry.counts@ + " 次"@
        + seq!['\n']
}

/// The lines of the first `n` entries of the leaderboard, ranked from 1.
pub open spec fn top_lines(entries: Seq<TopData>, n: nat) -> Seq<char>
    decreases n,
{
    if n == 0 {
        Seq::empty()
    } else {
        top_lines(entries, (n - 1) as nat) + top_line(n, entries[n - 1])
    }
}

/// The leaderboard's text: "nobody" where the statistics could not be read,
/// else the title line and one ranked line per entry.
pub open spec fn top_text_spec(in_group: bool, results: Option<Seq<TopData>>) -> Seq<char> {
    match results {
        None => BOT_TEXT_TOP_NONE@,
        Some(entries) => top_header(in_group) + top_lines(entries, entries.len()),
    }
}

/// The leaderboard template is the name, a text, the count and a text.
proof fn lemma_top_template()
    ensures
        BOT_TEXT_TOP_TEMPLATE@ == seq!['{'] + seq!['n', 'a', 'm', 'e'] + seq!['}'] + (" 被吊了 "@
            + (seq!['{'] + seq!['c', 'o', 'u', 'n', 't'] + seq!['}'] + " 次"@)),
        no_braces(" 被吊了 "@),
        no_braces(" 次"@),
{
    reveal_strlit("{name} 被吊了 {count} 次");
    reveal_strlit(" 被吊了 ");
    reveal_strlit(" 次");
    assert(BOT_TEXT_TOP_TEMPLATE@ =~= seq!['{'] + seq!['n', 'a', 'm', 'e'] + seq!['}'] + (" 被吊了 "@
        + (seq!['{'] + seq!['c', 'o', 'u', 'n', 't'] + seq!['}'] + " 次"@)));
}

/// One line of the leaderboard, without its rank.
fn top_record(entry: &TopData) -> (r: String)
    ensures
        r@ == escaped(entry.name@) + " 被吊了 "@ + entry.counts@ + " 次"@,
{
    let name_key = String::from_str("name");
    let count_key = String::from_str("count");
    proof {
        reveal_strlit("name");
        reveal_strlit("count");
    }
    let shown = escape(entry.name.as_str());
    let mut vars: Vec<(String, String)> = Vec::new();
    vars.push((name_key, shown));
    vars.push((count_key, entry.counts.clone()));
    proof {
        let pv = pairs_view(vars@);
        let nk = seq!['n', 'a', 'm', 'e'];
        let ck = seq!['c', 'o', 'u', 'n', 't'];
        assert(pv.len() == 2);
        assert(pv.last() == (ck, entry.counts@));
        assert(pv.drop_last().last() == (nk, escaped(entry.name@)));
        assert(nk != ck) by {
            assert(nk.len() != ck.len());
        }
        assert(lookup(pv, nk) == Some(escaped(entry.name@))) by {
            assert(lookup(pv.drop_last(), nk) == Some(escaped(entry.name@)));
        }
        assert(lookup(pv, ck) == Some(entry.counts@));
        lemma_top_template();
        let mid = " 被吊了 "@;
        let tail = " 次"@;
        assert(plain_key(nk)) by {
            assert(!nk.contains(':')) by {
                if nk.contains(':') {
                    let i = choose|i: int| 0 <= i < nk.len() && nk[i] == ':';
                }
            }
        }
        assert(plain_key(ck)) by {
            assert(!ck.contains(':')) by {
                if ck.contains(':') {
                    let i = choose|i: int| 0 <= i < ck.len() && ck[i] == ':';
                }
            }
        }
        lemma_render_plain(tail, pv);
        lemma_render_placeholder(ck, tail, pv, entry.counts@);
        crate::template::lemma_render_prefix(mid, seq!['{'] + ck + seq!['}'] + tail, pv);
        lemma_render_placeholder(nk, mid + (seq!['{'] + ck + seq!['}'] + tail), pv, escaped(entry.name@));
        assert(escaped(entry.name@) + (mid + (entry.counts@ + tail)) =~= escaped(entry.name@) + mid
            + entry.counts@ + tail);
    }
    match fill_template(BOT_TEXT_TOP_TEMPLATE, &vars) {
        Ok(record) => record,
        Err(_) => {
            proof {
                assert(false);
            }
            String::new()
        },
    }
}

/// The text of the leaderboard: "nobody" where the statistics could not be
/// read (`None`); else a title naming the scope (the group when asked in a
/// group or supergroup, else the world), then per entry its rank from 1,
/// its escaped name and its count.
pub fn top_text(in_group: bool, results: &Option<Vec<TopData>>) -> (r: String)
    ensures
        r@ == top_text_spec(
            in_group,
            match results {
                Some(v) => Some(v@),
                None => None,
            },
        ),
{
    let entries = match results {
        Some(v) => v,
        None => {
            return String::from_str(BOT_TEXT_TOP_NONE);
        },
    };
    let scope = if in_group {
        BOT_TEXT_TOP_GROUP
    } else {
        BOT_TEXT_TOP_GLOBAL
    };
    let mut text = String::from_str(BOT_TEXT_TOP_TITLE);
    text.append("\\-");
    text.append(scope);
    text.append("\n\n");
    proof {
        reveal_strlit("\\-");
        reveal_strlit("\n\n");
        assert("\\-"@ =~= seq!['\\', '-']);
        assert("\n\n"@ =~= seq!['\n', '\n']);
        assert(text@ =~= top_header(in_group) + top_lines(entries@, 0));
    }
    let mut i: usize = 0;
    while i < entries.len()
        invariant
            i <= entries.len(),
            text@ == top_header(in_group) + top_lines(entries@, i as nat),
        decreases entries.len() - i,
    {
        let rank = decimal_string(i + 1);
        let record = top_record(&entries[i]);
        let ghost before = text@;
        text.append(rank.as_str());
        text.append("\\. ");
        text.append(record.as_str());
        text.append("\n");
        proof {
            reveal_strlit("\\. ");
            reveal_strlit("\n");
            assert("\\. "@ =~= seq!['\\', '.', ' ']);
            assert("\n"@ =~= seq!['\n']);
            assert(top_lines(entries@, (i + 1) as nat) == top_lines(entries@, i as nat) + top_line(
                (i + 1) as nat,
                entries@[i as int],
            ));
            assert(text@ =~= top_header(in_group) + top_lines(entries@, (i + 1) as nat));
        }
        i = i + 1;
    }
    text
}

/// A `/hangit` answer counts a hanging exactly when it answers the replied
/// message, and only ever for the sender of that message when the sender is
/// no bot, not the anonymous administrator and not a channel; the hanging
/// is counted under the sender's full name.
pub proof fn law_only_people_are_hanged(reply: ReplyTarget, sender_first_name: Option<Seq<char>>, choice: nat)
    ensures
        hangit_reply_spec(reply, sender_first_name, choice).2 is Some <==> hangit_reply_spec(
            reply,
            sender_first_name,
            choice,
        ).0,
        hangit_reply_spec(reply, sender_first_name, choice).2 is Some ==> (reply matches ReplyTarget::Sender(u) && !u.is_bot
            && u.id != anonymous_user_id() && u.id != channel_user_id()
            && hangit_reply_spec(reply, sender_first_name, choice).2 == Some(
            full_name_of(u.first_name@, opt_view(u.last_name)),
        )),
{
}

/// The lines of a longer list start with the lines of a shorter one.
proof fn lemma_top_lines_prefix(entries: Seq<TopData>, e: TopData, n: nat)
    requires
        n <= entries.len(),
    ensures
        top_lines(entries.push(e), n) == top_lines(entries, n),
    decreases n,
{
    if n > 0 {
        lemma_top_lines_prefix(entries, e, (n - 1) as nat);
        assert(entries.push(e)[n - 1] == entries[n - 1]);
    }
}

/// The leaderboard's title names the group exactly when it is asked in a
/// group (or supergroup), and the world otherwise, whatever the entries;
/// without entries the text is the title alone.
pub proof fn law_top_title_names_scope(entries: Seq<TopData>)
    ensures
        starts_with(
            top_text_spec(true, Some(entries)),
            BOT_TEXT_TOP_TITLE@ + seq!['\\', '-'] + BOT_TEXT_TOP_GROUP@ + seq!['\n', '\n'],
        ),
        starts_with(
            top_text_spec(false, Some(entries)),
            BOT_TEXT_TOP_TITLE@ + seq!['\\', '-'] + BOT_TEXT_TOP_GLOBAL@ + seq!['\n', '\n'],
        ),
        top_text_spec(true, Some(Seq::empty())) == BOT_TEXT_TOP_TITLE@ + seq!['\\', '-']
            + BOT_TEXT_TOP_GROUP@ + seq!['\n', '\n'],
        top_text_spec(false, Some(Seq::empty())) == BOT_TEXT_TOP_TITLE@ + seq!['\\', '-']
            + BOT_TEXT_TOP_GLOBAL@ + seq!['\n', '\n'],
{
    let g = top_header(true);
    let w = top_header(false);
    let lg = top_lines(entries, entries.len());
    assert((g + lg).take(g.len() as int) =~= g);
    assert((w + lg).take(w.len() as int) =~= w);
    assert(g + top_lines(Seq::<TopData>::empty(), 0) =~= g);
    assert(w + top_lines(Seq::<TopData>::empty(), 0) =~= w);
}

/// One more entry at the end of the leaderboard adds one line at the end
/// of its text: the next rank, the entry's name escaped for MarkdownV2,
/// and its count; the lines before stay as they were.
pub proof fn law_top_entry_adds_its_line(in_group: bool, entries: Seq<TopData>, e: TopData)
    ensures
        top_text_spec(in_group, Some(entries.push(e))) == top_text_spec(in_group, Some(entries))
            + decimal(entries.len() + 1) + seq!['\\', '.', ' '] + escaped(e.name@) + " 被吊了 "@
            + e.counts@ + " 次"@ + seq!['\n'],
{
    let n = entries.len();
    lemma_top_lines_prefix(entries, e, n);
    assert(entries.push(e)[n as int] == e);
    assert(top_lines(entries.push(e), n + 1) == top_lines(entries.push(e), n) + top_line(n + 1, e));
    assert(top_text_spec(in_group, Some(entries.push(e))) =~= top_text_spec(in_group, Some(entries))
        + (decimal(entries.len() + 1) + seq!['\\', '.', ' '] + escaped(e.name@) + " 被吊了 "@
        + e.counts@ + " 次"@ + seq!['\n']));
}

/// When `/hangit` hangs someone, its text shows the replied sender's first
/// name escaped for MarkdownV2 between the prefix and suffix of a template,
/// and the template is one for hanging oneself exactly when the command's
/// sender has the same first name (last names play no part).
pub proof fn law_hangit_text_names_first_name(u: UserInfo, sender_first_name: Option<Seq<char>>, choice: nat)
    requires
        !u.is_bot,
        u.id != anonymous_user_id(),
        u.id != channel_user_id(),
    ensures
        exists|k: int|
            template_of_kind(sender_first_name == Some(u.first_name@), k)
                && hangit_reply_spec(ReplyTarget::Sender(u), sender_first_name, choice).1
                == #[trigger] hang_prefix(k) + escaped(u.first_name@) + hang_suffix(k),
{
    let is_self = sender_first_name == Some(u.first_name@);
    law_hang_text_shows_name(u.first_name@, is_self, choice);
}

} // verus!
