use vstd::prelude::*;

verus! {

/// The characters that Telegram's MarkdownV2 treats as markup.
pub open spec fn is_markdown_special(c: char) -> bool {
    c == '_' || c == '*' || c == '[' || c == ']' || c == '(' || c == ')' || c == '~' || c == '`'
        || c == '>' || c == '#' || c == '+' || c == '-' || c == '=' || c == '|' || c == '{'
        || c == '}' || c == '.' || c == '!'
}

/// The text `s` with a backslash put in front of every MarkdownV2 special character.
pub open spec fn escaped(s: Seq<char>) -> Seq<char>
    decreases s.len(),
{
    if s.len() == 0 {
        Seq::empty()
    } else {
        let head: Seq<char> = if is_markdown_special(s[0]) {
            seq!['\\', s[0]]
        } else {
            seq![s[0]]
        };
        head + escaped(s.drop_first())
    }
}

/// Calls `teloxide::utils::markdown::escape`, which replaces, one special
/// character after another, every occurrence of each MarkdownV2 special
/// character `c` by `\c`; no backslash is ever replaced, so the result is the
/// text with a backslash in front of each special character.
#[verifier::external_body]
pub(crate) fn escape(s: &str) -> (r: String)
    ensures
        r@ == escaped(s@),
{
    teloxide::utils::markdown::escape(s)
}

} // verus!
