//! Regular expressions, through the `regex` crate.
//!
//! A compiled expression is held in a [`Pattern`] together with the source
//! text it was compiled from; the only way to obtain one is [`compile`], so
//! every `Pattern` carries the source of its own regex. What the regex engine
//! computes is not restated: each operation's result is given a name over the
//! pattern's source text and the input text.
use vstd::prelude::*;

verus! {

#[verifier::external_type_specification]
#[verifier::external_body]
pub struct ExRegex(regex::Regex);

/// A compiled regular expression and the source text it was compiled from.
pub struct Pattern {
    re: regex::Regex,
    src: String,
}

impl Pattern {
    /// The source text this pattern was compiled from.
    pub closed spec fn source(&self) -> Seq<char> {
        self.src@
    }
}

/// Whether `regex::Regex::new` accepts the pattern.
pub uninterp spec fn regex_compiles(pattern: Seq<char>) -> bool;

/// What `regex::Regex::is_match` returns for a pattern and a haystack.
pub uninterp spec fn regex_is_match(pattern: Seq<char>, text: Seq<char>) -> bool;

/// What `regex::Regex::captures` returns: the groups of the leftmost-first
/// match (group 0 is the whole match; `None` for a group that did not take part).
pub uninterp spec fn regex_captures(pattern: Seq<char>, text: Seq<char>) -> Option<
    Seq<Option<Seq<char>>>,
>;

/// What `regex::Regex::captures_iter` yields: the groups of every successive
/// non-overlapping match.
pub uninterp spec fn regex_captures_all(pattern: Seq<char>, text: Seq<char>) -> Seq<
    Seq<Option<Seq<char>>>,
>;

/// What `regex::Regex::replace_all` returns for a haystack and a replacement template.
pub uninterp spec fn regex_replace_all(pattern: Seq<char>, text: Seq<char>, rep: Seq<char>) -> Seq<
    char,
>;

/// What `regex::Regex::replace` returns (first match only) for a haystack and
/// a replacement template.
pub uninterp spec fn regex_replace_first(
    pattern: Seq<char>,
    text: Seq<char>,
    rep: Seq<char>,
) -> Seq<char>;

/// The view of a list of capture groups.
pub open spec fn groups_view(g: Seq<Option<String>>) -> Seq<Option<Seq<char>>> {
    g.map_values(|o: Option<String>| o.deep_view())
}

/// Calls `regex::Regex::new`. The pattern is kept beside the compiled regex;
/// `regex_compiles` names whether compilation succeeds.
#[verifier::external_body]
pub(crate) fn compile(pattern: &str) -> (r: Option<Pattern>)
    ensures
        r is Some <==> regex_compiles(pattern@),
        r matches Some(p) ==> p.source() == pattern@,
{
    match regex::Regex::new(pattern) {
        Ok(re) => Some(Pattern { re, src: pattern.to_string() }),
        Err(_) => None,
    }
}

/// Calls `regex::Regex::is_match`; its result is named `regex_is_match`.
#[verifier::external_body]
pub(crate) fn is_match(p: &Pattern, text: &str) -> (r: bool)
    ensures
        r == regex_is_match(p.source(), text@),
{
    p.re.is_match(text)
}

/// Calls `regex::Regex::captures`; its result is named `regex_captures`. As
/// the crate documents, there are captures exactly when the regex matches,
/// and there is one entry per group of the regex, group 0 being present.
#[verifier::external_body]
pub(crate) fn captures(p: &Pattern, text: &str) -> (r: Option<Vec<Option<String>>>)
    ensures
        r matches Some(g) ==> regex_captures(p.source(), text@) == Some(groups_view(g@)),
        r is None ==> regex_captures(p.source(), text@) is None,
        r is Some <==> regex_is_match(p.source(), text@),
        r matches Some(g) ==> g@.len() >= 1 && g@[0] is Some,
{
    p.re.captures(text).map(
        |c| (0..c.len()).map(|i| c.get(i).map(|m| m.as_str().to_string())).collect(),
    )
}

/// Calls `regex::Regex::captures_iter`; its result is named `regex_captures_all`.
#[verifier::external_body]
pub(crate) fn captures_all(p: &Pattern, text: &str) -> (r: Vec<Vec<Option<String>>>)
    ensures
        r@.map_values(|g: Vec<Option<String>>| groups_view(g@)) == regex_captures_all(
            p.source(),
            text@,
        ),
{
    p.re.captures_iter(text).map(
        |c| (0..c.len()).map(|i| c.get(i).map(|m| m.as_str().to_string())).collect(),
    ).collect()
}

/// Calls `regex::Regex::replace_all`; its result is named `regex_replace_all`.
#[verifier::external_body]
pub(crate) fn replace_all(p: &Pattern, text: &str, rep: &str) -> (r: String)
    ensures
        r@ == regex_replace_all(p.source(), text@, rep@),
{
    p.re.replace_all(text, rep).into_owned()
}

/// Calls `regex::Regex::replace`; its result is named `regex_replace_first`.
#[verifier::external_body]
pub(crate) fn replace_first(p: &Pattern, text: &str, rep: &str) -> (r: String)
    ensures
        r@ == regex_replace_first(p.source(), text@, rep@),
{
    p.re.replace(text, rep).into_owned()
}

/// The pattern compiles and matches the text (a pattern that does not
/// compile matches nothing).
pub open spec fn pattern_test(pattern: Seq<char>, text: Seq<char>) -> bool {
    regex_compiles(pattern) && regex_is_match(pattern, text)
}

/// Compiles `pattern` and tests it against `text`; an invalid pattern never matches.
pub fn regex_test(text: &str, pattern: &str) -> (r: bool)
    ensures
        r == pattern_test(pattern@, text@),
{
    match compile(pattern) {
        Some(p) => is_match(&p, text),
        None => false,
    }
}

/// The groups of the first match of `pattern` in `text`, if the pattern compiles.
pub open spec fn pattern_captures(pattern: Seq<char>, text: Seq<char>) -> Option<
    Seq<Option<Seq<char>>>,
> {
    if regex_compiles(pattern) {
        regex_captures(pattern, text)
    } else {
        None
    }
}

/// Compiles `pattern` and returns the groups of its first match in `text`.
pub fn regex_captures_of(text: &str, pattern: &str) -> (r: Option<Vec<Option<String>>>)
    ensures
        r matches Some(g) ==> pattern_captures(pattern@, text@) == Some(groups_view(g@)) && g@.len()
            >= 1,
        r is None ==> pattern_captures(pattern@, text@) is None,
{
    match compile(pattern) {
        Some(p) => captures(&p, text),
        None => None,
    }
}

/// Group `i` of a capture list, or the empty text when absent.
pub open spec fn group_or_empty(g: Seq<Option<Seq<char>>>, i: int) -> Seq<char> {
    if 0 <= i < g.len() && g[i] is Some {
        g[i]->Some_0
    } else {
        Seq::empty()
    }
}

/// Group `i` of a capture list, or the empty string (`c.get(i).map_or("", ..)`).
pub fn group_text(g: &Vec<Option<String>>, i: usize) -> (r: String)
    ensures
        r@ == group_or_empty(groups_view(g@), i as int),
{
    if i < g.len() {
        match &g[i] {
            Some(s) => s.clone(),
            None => String::new(),
        }
    } else {
        String::new()
    }
}

} // verus!
