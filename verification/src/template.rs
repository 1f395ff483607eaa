//! Filling `{key}` placeholders of a text template, through the `strfmt` crate.
use vstd::prelude::*;

verus! {

#[verifier::external_type_specification]
#[verifier::external_body]
pub struct ExFmtError(strfmt::FmtError);

/// The variables of a template, as plain text pairs `(key, value)`.
pub open spec fn pairs_view(vars: Seq<(String, String)>) -> Seq<(Seq<char>, Seq<char>)> {
    vars.map_values(|p: (String, String)| (p.0@, p.1@))
}

/// The value bound to `key`; a later binding of the same key wins.
pub open spec fn lookup(vars: Seq<(Seq<char>, Seq<char>)>, key: Seq<char>) -> Option<Seq<char>>
    decreases vars.len(),
{
    if vars.len() == 0 {
        None
    } else if vars.last().0 == key {
        Some(vars.last().1)
    } else {
        lookup(vars.drop_last(), key)
    }
}

/// Index of the first `}` in `s`, or `s.len()` when there is none.
pub open spec fn first_close(s: Seq<char>) -> nat
    decreases s.len(),
{
    if s.len() == 0 {
        0
    } else if s[0] == '}' {
        0
    } else {
        1 + first_close(s.drop_first())
    }
}

/// Whether `s` holds neither `{` nor `}`.
pub open spec fn no_braces(s: Seq<char>) -> bool {
    forall|i: int| 0 <= i < s.len() ==> s[i] != '{' && s[i] != '}'
}

/// A key that may stand between braces as a plain placeholder.
pub open spec fn plain_key(key: Seq<char>) -> bool {
    &&& key.len() > 0
    &&& no_braces(key)
    &&& !key.contains(':')
}

/// The template filled in, for a template whose braces only open plain
/// placeholders `{key}` of bound keys; `None` for every other template
/// (about which nothing is said).
pub open spec fn render(t: Seq<char>, vars: Seq<(Seq<char>, Seq<char>)>) -> Option<Seq<char>>
    decreases t.len(),
{
    if t.len() == 0 {
        Some(Seq::empty())
    } else if t[0] == '}' {
        None
    } else if t[0] == '{' {
        let rest = t.drop_first();
        let j = first_close(rest);
        if j >= rest.len() {
            None
        } else {
            let key = rest.take(j as int);
            if !plain_key(key) {
                None
            } else {
                match lookup(vars, key) {
                    None => None,
                    Some(v) => match render(rest.skip(j + 1 as int), vars) {
                        Some(r) => Some(v + r),
                        None => None,
                    },
                }
            }
        }
    } else {
        match render(t.drop_first(), vars) {
            Some(r) => Some(seq![t[0]] + r),
            None => None,
        }
    }
}

/// What `strfmt` makes of a template and its variables: `Some` text, or
/// `None` where it reports an error.
pub uninterp spec fn strfmt_output(template: Seq<char>, vars: Seq<(Seq<char>, Seq<char>)>) -> Option<Seq<char>>;

/// Calls `<str as strfmt::Format>::format` on a map built by inserting the
/// pairs in order (so that a later pair of the same key wins).
/// Claimed: the result is `strfmt_output` of the arguments; and where the
/// template's braces only open plain placeholders `{key}` of bound keys,
/// the call succeeds with the template in which each such placeholder is
/// replaced by its value. Left unsaid: what `strfmt` does with escaped
/// braces, format specifications and errors.
#[verifier::external_body]
pub(crate) fn fill_template(template: &str, vars: &Vec<(String, String)>) -> (r: Result<String, strfmt::FmtError>)
    ensures
        r matches Ok(s) ==> strfmt_output(template@, pairs_view(vars@)) == Some(s@),
        r is Err ==> strfmt_output(template@, pairs_view(vars@)) is None,
        render(template@, pairs_view(vars@)) is Some ==> r is Ok,
        r matches Ok(o) ==> (render(template@, pairs_view(vars@)) is Some ==> Some(o@) == render(template@, pairs_view(vars@))),
{
    let mut map: std::collections::HashMap<String, String> = std::collections::HashMap::new();
    for (k, v) in vars.iter() {
        map.insert(k.clone(), v.clone());
    }
    strfmt::Format::format(template, &map)
}

/// Text without braces is left as it is.
pub proof fn lemma_render_plain(s: Seq<char>, vars: Seq<(Seq<char>, Seq<char>)>)
    requires
        no_braces(s),
    ensures
        render(s, vars) == Some(s),
    decreases s.len(),
{
    if s.len() > 0 {
        lemma_render_plain(s.drop_first(), vars);
        assert(seq![s[0]] + s.drop_first() =~= s);
    }
}

/// Text without braces in front of a template is copied in front of its filling.
pub proof fn lemma_render_prefix(p: Seq<char>, t: Seq<char>, vars: Seq<(Seq<char>, Seq<char>)>)
    requires
        no_braces(p),
    ensures
        render(p + t, vars) == (match render(t, vars) {
            Some(r) => Some(p + r),
            None => None,
        }),
    decreases p.len(),
{
    if p.len() == 0 {
        assert(p + t =~= t);
        assert(forall|r: Seq<char>| p + r =~= r);
    } else {
        let q = p.drop_first();
        lemma_render_prefix(q, t, vars);
        assert((p + t).drop_first() =~= q + t);
        assert((p + t)[0] == p[0]);
        match render(t, vars) {
            Some(r) => {
                assert(seq![p[0]] + (q + r) =~= p + r);
            },
            None => {},
        }
    }
}

/// A plain placeholder in front of a template is replaced by its value.
pub proof fn lemma_render_placeholder(
    key: Seq<char>,
    t: Seq<char>,
    vars: Seq<(Seq<char>, Seq<char>)>,
    v: Seq<char>,
)
    requires
        plain_key(key),
        lookup(vars, key) == Some(v),
    ensures
        render(seq!['{'] + key + seq!['}'] + t, vars) == (match render(t, vars) {
            Some(r) => Some(v + r),
            None => None,
        }),
{
    let whole = seq!['{'] + key + seq!['}'] + t;
    let rest = whole.drop_first();
    assert(rest =~= key + seq!['}'] + t);
    lemma_first_close(key, seq!['}'] + t);
    assert((key + (seq!['}'] + t)) =~= rest);
    assert(rest.take(key.len() as int) =~= key);
    assert(rest.skip(key.len() + 1 as int) =~= t);
}

/// The first `}` after a brace-free text is the one that follows it.
pub proof fn lemma_first_close(k: Seq<char>, t: Seq<char>)
    requires
        no_braces(k),
        t.len() > 0,
        t[0] == '}',
    ensures
        first_close(k + t) == k.len(),
    decreases k.len(),
{
    if k.len() == 0 {
        assert(k + t =~= t);
    } else {
        assert((k + t).drop_first() =~= k.drop_first() + t);
        lemma_first_close(k.drop_first(), t);
    }
}

} // verus!
