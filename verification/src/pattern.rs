//! The regex engine behind the input grammar: what a pattern finds in a text.

use vstd::prelude::*;

verus! {

/// Whether `Regex::new` of the regex crate accepts the pattern.
pub uninterp spec fn regex_accepts(pattern: Seq<char>) -> bool;

/// The capture groups of the leftmost match that `Regex::captures` finds for
/// an accepted pattern, the whole match first; `None` where nothing matches.
pub uninterp spec fn regex_first_match(pattern: Seq<char>, text: Seq<char>) -> Option<
    Seq<Option<Seq<char>>>,
>;

/// The capture groups of every match that `Regex::captures_iter` yields for an
/// accepted pattern, in the order of the text.
pub uninterp spec fn regex_all_matches(pattern: Seq<char>, text: Seq<char>) -> Seq<
    Seq<Option<Seq<char>>>,
>;

/// The capture groups of one match as texts.
pub open spec fn group_texts(groups: Seq<Option<String>>) -> Seq<Option<Seq<char>>> {
    groups.map_values(
        |g: Option<String>|
            match g {
                Some(s) => Some(s@),
                None => None,
            },
    )
}

/// The capture groups of a run of matches as texts.
pub open spec fn match_texts(matches: Seq<Vec<Option<String>>>) -> Seq<Seq<Option<Seq<char>>>> {
    matches.map_values(|m: Vec<Option<String>>| group_texts(m@))
}

/// Compiles the pattern with `regex::Regex::new` and runs `Regex::captures`
/// on the text. Trusted: the result is `None` exactly on a pattern the engine does
/// not accept, and otherwise hands out the groups of the leftmost match.
#[verifier::external_body]
pub(crate) fn first_match(pattern: &str, text: &str) -> (r: Option<Option<Vec<Option<String>>>>)
    ensures
        r is Some <==> regex_accepts(pattern@),
        r is Some ==> match r->Some_0 {
            Some(groups) => regex_first_match(pattern@, text@) == Some(group_texts(groups@)),
            None => regex_first_match(pattern@, text@) is None,
        },
{
    let re = regex::Regex::new(pattern).ok()?;
    Some(re.captures(text).map(|c| c.iter().map(|g| g.map(|m| m.as_str().to_string())).collect()))
}

/// Compiles the pattern with `regex::Regex::new` and walks
/// `Regex::captures_iter` over the text. Trusted: the result is `None` exactly on a
/// pattern the engine does not accept, and otherwise hands out the groups of
/// every match in order.
#[verifier::external_body]
pub(crate) fn all_matches(pattern: &str, text: &str) -> (r: Option<Vec<Vec<Option<String>>>>)
    ensures
        r is Some <==> regex_accepts(pattern@),
        r is Some ==> match_texts(r->Some_0@) == regex_all_matches(pattern@, text@),
{
    let re = regex::Regex::new(pattern).ok()?;
    Some(
        re.captures_iter(text).map(
            |c| c.iter().map(|g| g.map(|m| m.as_str().to_string())).collect(),
        ).collect(),
    )
}

} // verus!
