//! Regular-expression matching, done by the `regex` crate.
//!
//! What a regular expression matches is not restated here: each query is
//! named by a function of the pattern text and the haystack, and the
//! wrappers below tie the crate's answers to those names.

use vstd::prelude::*;

verus! {

#[verifier::external_type_specification]
#[verifier::external_body]
pub struct ExRegex(regex::Regex);

/// Whether `regex::Regex::new` accepts `pattern` (with its default limits).
pub uninterp spec fn regex_compiles(pattern: Seq<char>) -> bool;

/// `Regex::is_match` of the regex compiled from `pattern`, on `hay`.
pub uninterp spec fn regex_is_match(pattern: Seq<char>, hay: Seq<char>) -> bool;

/// Number of matches `Regex::find_iter` yields for `pattern` on `hay`.
pub uninterp spec fn regex_match_count(pattern: Seq<char>, hay: Seq<char>) -> nat;

/// `Regex::captures` on `hay`: `None` without a match, else capture group 1
/// of the first match (`None` inside when that group took no part).
pub uninterp spec fn regex_first_group(pattern: Seq<char>, hay: Seq<char>) -> Option<Option<Seq<char>>>;

/// Capture group 1 of each successive match that `Regex::captures_iter` yields.
pub uninterp spec fn regex_groups(pattern: Seq<char>, hay: Seq<char>) -> Seq<Option<Seq<char>>>;

/// A compiled regular expression with the text it was compiled from.
pub struct Pattern {
    source: String,
    re: regex::Regex,
}

impl View for Pattern {
    type V = Seq<char>;

    closed spec fn view(&self) -> Seq<char> {
        self.source@
    }
}

/// Compiles `pattern` with `regex::Regex::new`; `None` where the crate
/// refuses it. The result remembers the pattern text.
#[verifier::external_body]
pub(crate) fn compile_pattern(pattern: &str) -> (r: Option<Pattern>)
    ensures
        r is Some <==> regex_compiles(pattern@),
        r matches Some(p) ==> p@ == pattern@,
{
    match regex::Regex::new(pattern) {
        Ok(re) => Some(Pattern { source: pattern.to_string(), re }),
        Err(_) => None,
    }
}

/// `Regex::is_match`: whether the pattern matches somewhere in `hay`.
#[verifier::external_body]
pub(crate) fn pattern_is_match(p: &Pattern, hay: &str) -> (r: bool)
    ensures
        r == regex_is_match(p@, hay@),
{
    p.re.is_match(hay)
}

/// `Regex::find_iter`, counted: the number of successive matches in `hay`.
#[verifier::external_body]
pub(crate) fn pattern_match_count(p: &Pattern, hay: &str) -> (r: usize)
    ensures
        r == regex_match_count(p@, hay@),
{
    p.re.find_iter(hay).count()
}

/// `Regex::captures`: capture group 1 of the first match in `hay`.
#[verifier::external_body]
pub(crate) fn pattern_first_group(p: &Pattern, hay: &str) -> (r: Option<Option<String>>)
    ensures
        r.deep_view() == regex_first_group(p@, hay@),
{
    match p.re.captures(hay) {
        Some(caps) => Some(caps.get(1).map(|m| m.as_str().to_string())),
        None => None,
    }
}

/// `Regex::captures_iter`: capture group 1 of each successive match in `hay`.
#[verifier::external_body]
pub(crate) fn pattern_groups(p: &Pattern, hay: &str) -> (r: Vec<Option<String>>)
    ensures
        r.deep_view() == regex_groups(p@, hay@),
{
    p.re.captures_iter(hay).map(|caps| caps.get(1).map(|m| m.as_str().to_string())).collect()
}

/// Characters that `regex::escape` puts a backslash before.
pub open spec fn is_regex_meta(c: char) -> bool {
    c == '\\' || c == '.' || c == '+' || c == '*' || c == '?' || c == '(' || c == ')'
        || c == '|' || c == '[' || c == ']' || c == '{' || c == '}' || c == '^' || c == '$'
        || c == '#' || c == '&' || c == '-' || c == '~'
}

/// `s` with a backslash before each regex meta character.
pub open spec fn regex_escaped(s: Seq<char>) -> Seq<char>
    decreases s.len(),
{
    if s.len() == 0 {
        Seq::empty()
    } else if is_regex_meta(s.last()) {
        regex_escaped(s.drop_last()) + seq!['\\', s.last()]
    } else {
        regex_escaped(s.drop_last()).push(s.last())
    }
}

/// `regex::escape`: `s` as a pattern that matches `s` literally.
#[verifier::external_body]
pub(crate) fn escape_pattern(s: &str) -> (r: String)
    ensures
        r@ == regex_escaped(s@),
{
    regex::escape(s)
}

} // verus!
