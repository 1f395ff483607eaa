//! Recognising texts that follow a template, through the `regex` crate.
use vstd::prelude::*;

verus! {

#[verifier::external_type_specification]
#[verifier::external_body]
pub struct ExRegex(regex::Regex);

#[verifier::external_type_specification]
#[verifier::external_body]
pub struct ExRegexError(regex::Error);

/// The characters that have a meaning of their own in a regular expression.
pub open spec fn is_regex_meta(c: char) -> bool {
    c == '\\' || c == '.' || c == '+' || c == '*' || c == '?' || c == '(' || c == ')' || c == '|'
        || c == '[' || c == ']' || c == '{' || c == '}' || c == '^' || c == '$' || c == '#'
        || c == '&' || c == '-' || c == '~'
}

/// Text that a regular expression matches literally.
pub open spec fn regex_literal(s: Seq<char>) -> bool {
    forall|i: int| 0 <= i < s.len() ==> !is_regex_meta(#[trigger] s[i])
}

/// The group that captures one or more characters: `(.+)`.
pub open spec fn any_group() -> Seq<char> {
    seq!['(', '.', '+', ')']
}

/// The expression `^prefix(.+)suffix$`.
pub open spec fn capture_pattern(prefix: Seq<char>, suffix: Seq<char>) -> Seq<char> {
    seq!['^'] + prefix + any_group() + suffix + seq!['$']
}

/// Whether `s` holds no line break.
pub open spec fn single_line(s: Seq<char>) -> bool {
    forall|i: int| 0 <= i < s.len() ==> s[i] != '\n'
}

/// Whether `t` ends with `s`.
pub open spec fn ends_with(t: Seq<char>, s: Seq<char>) -> bool {
    s.len() <= t.len() && t.skip(t.len() - s.len()) == s
}

/// Whether `t` starts with `s`.
pub open spec fn starts_with(t: Seq<char>, s: Seq<char>) -> bool {
    s.len() <= t.len() && t.take(s.len() as int) == s
}

/// What `^prefix(.+)suffix$` captures of `text`, for a literal prefix and
/// suffix: the part between them, where the text is made of the prefix, at
/// least one character other than a line break, and the suffix.
pub open spec fn literal_capture(prefix: Seq<char>, suffix: Seq<char>, text: Seq<char>) -> Option<Seq<char>> {
    let middle = text.subrange(prefix.len() as int, text.len() - suffix.len());
    if text.len() >= prefix.len() + suffix.len() + 1 && starts_with(text, prefix) && ends_with(
        text,
        suffix,
    ) && single_line(middle) {
        Some(middle)
    } else {
        None
    }
}

/// What the `regex` crate's first capture group of `pattern` holds on
/// `text`: `None` where the pattern does not match.
pub uninterp spec fn regex_first_group(pattern: Seq<char>, text: Seq<char>) -> Option<Seq<char>>;

/// An optional text, by its characters.
pub open spec fn opt_view(o: Option<String>) -> Option<Seq<char>> {
    match o {
        Some(s) => Some(s@),
        None => None,
    }
}

/// A compiled regular expression together with the expression it was
/// compiled from. Only `compile` makes one, so `regex` always is the
/// compilation of `source`.
pub struct CapturePattern {
    source: String,
    regex: regex::Regex,
}

impl View for CapturePattern {
    type V = Seq<char>;

    /// The expression this pattern was compiled from.
    closed spec fn view(&self) -> Seq<char> {
        self.source@
    }
}

/// Calls `regex::Regex::new` on `source` and keeps the source beside the
/// compiled expression. Claimed: a success keeps `source`; an expression
/// `^prefix(.+)suffix$` of at most 1024 characters whose prefix and suffix
/// are literal text always compiles (it has no syntax error and stays far
/// below the crate's default size limit). Left unsaid: which other
/// expressions compile.
#[verifier::external_body]
pub(crate) fn compile(source: String) -> (r: Result<CapturePattern, regex::Error>)
    ensures
        r matches Ok(p) ==> p@ == source@,
        forall|prefix: Seq<char>, suffix: Seq<char>|
            #![trigger capture_pattern(prefix, suffix)]
            capture_pattern(prefix, suffix) == source@ && regex_literal(prefix) && regex_literal(
                suffix,
            ) && source@.len() <= 1024 ==> r is Ok,
{
    match regex::Regex::new(&source) {
        Ok(regex) => Ok(CapturePattern { source, regex }),
        Err(e) => Err(e),
    }
}

/// Calls `regex::Regex::captures` and takes the text of capture group 1.
/// Claimed: the result is `regex_first_group` of the pattern's source and
/// the text; and for `^prefix(.+)suffix$` with a literal prefix and suffix
/// it is exactly the part of the text between prefix and suffix, when the
/// text is made of the prefix, at least one character other than a line
/// break (what `.` matches) and the suffix, and `None` otherwise.
#[verifier::external_body]
pub(crate) fn first_group(p: &CapturePattern, text: &str) -> (r: Option<String>)
    ensures
        opt_view(r) == regex_first_group(p@, text@),
        forall|prefix: Seq<char>, suffix: Seq<char>|
            #![trigger capture_pattern(prefix, suffix)]
            capture_pattern(prefix, suffix) == p@ && regex_literal(prefix)
                && regex_literal(suffix) ==> opt_view(r) == literal_capture(prefix, suffix, text@),
{
    match p.regex.captures(text) {
        Some(caps) => match caps.get(1) {
            Some(m) => Some(m.as_str().to_string()),
            None => None,
        },
        None => None,
    }
}

/// `s` with every occurrence of `from` replaced by `to`, occurrences taken
/// from the left and not overlapping.
pub open spec fn replaced(s: Seq<char>, from: Seq<char>, to: Seq<char>) -> Seq<char>
    decreases s.len(),
{
    if from.len() == 0 || s.len() < from.len() {
        s
    } else if s.take(from.len() as int) == from {
        to + replaced(s.skip(from.len() as int), from, to)
    } else {
        seq![s[0]] + replaced(s.drop_first(), from, to)
    }
}

/// Calls `str::replace`, which, as std documents it, replaces all matches
/// of `from` (found from the left, without overlap) by `to`. Claimed for a
/// non-empty `from`; left unsaid for an empty one.
#[verifier::external_body]
pub(crate) fn replace_all(s: &str, from: &str, to: &str) -> (r: String)
    ensures
        from@.len() > 0 ==> r@ == replaced(s@, from@, to@),
{
    s.replace(from, to)
}

/// Text in which `from` cannot start is copied as it is.
pub proof fn lemma_replaced_skip(p: Seq<char>, rest: Seq<char>, from: Seq<char>, to: Seq<char>)
    requires
        from.len() > 0,
        forall|i: int| 0 <= i < p.len() ==> p[i] != from[0],
    ensures
        replaced(p + rest, from, to) == p + replaced(rest, from, to),
    decreases p.len(),
{
    if p.len() == 0 {
        assert(p + rest =~= rest);
        assert(p + replaced(rest, from, to) =~= replaced(rest, from, to));
    } else {
        let s = p + rest;
        if s.len() < from.len() {
            // no room for `from`: both sides are `s`
            lemma_replaced_short(rest, from, to);
        } else {
            assert(s.take(from.len() as int)[0] == p[0]);
            assert(s.take(from.len() as int) != from);
            assert(s.drop_first() =~= p.drop_first() + rest);
            lemma_replaced_skip(p.drop_first(), rest, from, to);
            assert(seq![s[0]] + (p.drop_first() + replaced(rest, from, to)) =~= p + replaced(
                rest,
                from,
                to,
            ));
        }
    }
}

/// Text shorter than `from` is left as it is.
pub proof fn lemma_replaced_short(s: Seq<char>, from: Seq<char>, to: Seq<char>)
    requires
        s.len() < from.len(),
    ensures
        replaced(s, from, to) == s,
{
}

/// An occurrence of `from` in front is replaced.
pub proof fn lemma_replaced_front(rest: Seq<char>, from: Seq<char>, to: Seq<char>)
    requires
        from.len() > 0,
    ensures
        replaced(from + rest, from, to) == to + replaced(rest, from, to),
{
    let s = from + rest;
    assert(s.take(from.len() as int) =~= from);
    assert(s.skip(from.len() as int) =~= rest);
}

} // verus!
