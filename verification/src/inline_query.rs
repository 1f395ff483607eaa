//! Inline mode: the menu offered while typing `@bot name`, and the choice
//! made from it.
use vstd::prelude::*;
use crate::messages::BOT_TEXT_INLINE_HANG;
use crate::pattern::single_line;
use crate::utils::{
    hang_text, hanged_name_spec, hangit_text, law_hang_text_recognised, shown_name, template_of_kind,
    IS_SELF, NEED_ESCAPE,
};

verus! {

/// One entry of the inline menu: its id, the title shown, and the message
/// sent when it is picked.
pub struct InlineArticle {
    pub id: String,
    pub title: String,
    pub text: String,
}

/// The title of the entry for hanging `name`.
pub open spec fn article_title(name: Seq<char>) -> Seq<char> {
    BOT_TEXT_INLINE_HANG@ + seq![' '] + name
}

/// Whether `a` is an entry for hanging `name`, with one of the unescaped
/// hanging texts of the kind that `is_self` asks for.
pub open spec fn is_hang_article(a: InlineArticle, name: Seq<char>, is_self: bool) -> bool {
    &&& a.id@ == name
    &&& a.title@ == article_title(name)
    &&& exists|k: int| template_of_kind(is_self, k) && a.text@ == #[trigger] hang_text(name, k)
}

/// Whether the query is a username (it starts with `@`).
pub open spec fn is_username_query(query: Seq<char>) -> bool {
    query.len() > 0 && query[0] == '@'
}

fn hang_article(name: &String, is_self: bool) -> (a: InlineArticle)
    ensures
        is_hang_article(a, name@, is_self),
{
    let mut title = String::from_str(BOT_TEXT_INLINE_HANG);
    title.append(" ");
    title.append(name.as_str());
    proof {
        reveal_strlit(" ");
        assert(" "@ =~= seq![' ']);
        assert(title@ =~= article_title(name@));
    }
    let text = hangit_text(name.clone(), is_self, !NEED_ESCAPE);
    proof {
        assert(shown_name(name@, !NEED_ESCAPE) == name@);
    }
    InlineArticle { id: name.clone(), title, text }
}

/// The inline menu for `query`, typed by a user whose first name is
/// `from_first_name`: nothing for a username query; else one entry per
/// name found in the statistics (`found`, none where the search failed),
/// in order, each with a hanging text for hanging oneself when the name is
/// the user's first name, then one entry for the query itself, with a text
/// for hanging someone else. Names are not escaped.
pub fn inline_results(query: &String, from_first_name: &String, found: &Option<Vec<String>>) -> (r: Vec<InlineArticle>)
    ensures
        is_username_query(query@) ==> r.len() == 0,
        !is_username_query(query@) ==> {
            let names = match found {
                Some(v) => v@,
                None => Seq::empty(),
            };
            &&& r.len() == names.len() + 1
            &&& forall|j: int|
                0 <= j < names.len() ==> is_hang_article(
                    #[trigger] r@[j],
                    names[j]@,
                    names[j]@ == from_first_name@,
                )
            &&& is_hang_article(r@[names.len() as int], query@, !IS_SELF)
        },
{
    let mut results: Vec<InlineArticle> = Vec::new();
    if query.as_str().unicode_len() > 0 && query.as_str().get_char(0) == '@' {
        return results;
    }
    let ghost names = match found {
        Some(v) => v@,
        None => Seq::<String>::empty(),
    };
    match found {
        Some(list) => {
            let mut i: usize = 0;
            while i < list.len()
                invariant
                    names == list@,
                    i <= list.len(),
                    results.len() == i,
                    forall|j: int|
                        0 <= j < i ==> is_hang_article(
                            #[trigger] results@[j],
                            names[j]@,
                            names[j]@ == from_first_name@,
                        ),
                decreases list.len() - i,
            {
                let is_self = list[i] == *from_first_name;
                let a = hang_article(&list[i], is_self);
                results.push(a);
                i = i + 1;
            }
        },
        None => {},
    }
    let last = hang_article(query, !IS_SELF);
    results.push(last);
    results
}

/// The name whose hanging a pick from the inline menu counts: the picked
/// entry's id, unless it is the bare `@`.
pub fn chosen_hang_target(result_id: &str) -> (r: Option<String>)
    ensures
        result_id@ == seq!['@'] ==> r is None,
        result_id@ != seq!['@'] ==> (r matches Some(s) && s@ == result_id@),
{
    if result_id.unicode_len() == 1 && result_id.get_char(0) == '@' {
        proof {
            assert(result_id@ =~= seq!['@']);
        }
        None
    } else {
        Some(String::from_str(result_id))
    }
}

/// The message that an entry of the inline menu sends, for a name that is
/// not empty and holds no line break, is recognised in the chat as the
/// hanging of the very name that picking the entry counts (its id).
pub proof fn law_picked_entry_is_recognised(a: InlineArticle, name: Seq<char>, is_self: bool)
    requires
        is_hang_article(a, name, is_self),
        name.len() > 0,
        single_line(name),
    ensures
        hanged_name_spec(a.text@) == Some(a.id@),
{
    let k = choose|k: int| template_of_kind(is_self, k) && a.text@ == #[trigger] hang_text(name, k);
    law_hang_text_recognised(name, k);
}

} // verus!
