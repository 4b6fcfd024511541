//! The search for the line on which the transcoder announces how long its
//! input is.

use vstd::prelude::*;

verus! {

/// The pattern of the announcement: optional white space at the start of the
/// line, the word `Duration:`, one blank, and the time span, which is the
/// pattern's first group.
pub const DURATION_PATTERN: &'static str =
    "^\\s*Duration: ([0-9]{2}:[0-9]{2}:[0-9]{2}.[0-9]{2,6})";

/// The text of the first group in the leftmost match of the regular
/// expression `pattern` in `haystack`. It is `None` where `pattern` is no
/// valid expression, where nothing in `haystack` matches it, and where the
/// match leaves the first group out.
pub uninterp spec fn first_group_of_match(pattern: Seq<char>, haystack: Seq<char>) -> Option<
    Seq<char>,
>;

/// Runs `regex::Regex::new` on `pattern`, `Regex::captures` on `haystack`
/// and `Captures::get` for group 1. The contract claims only that the outcome
/// is the one that `first_group_of_match` names: it depends on the two texts
/// and on nothing else.
///
/// The expression is compiled at each call. The engine calls only until the
/// announcement is found, which the transcoder writes among its first lines.
#[verifier::external_body]
pub(crate) fn first_group(pattern: &str, haystack: &str) -> (group: Option<String>)
    ensures
        match group {
            Some(text) => first_group_of_match(pattern@, haystack@) == Some(text@),
            None => first_group_of_match(pattern@, haystack@) is None,
        },
{
    let expression = regex::Regex::new(pattern).ok()?;
    let captures = expression.captures(haystack)?;
    captures.get(1).map(|found| found.as_str().to_string())
}

/// The time span that `line` announces, as the text that the announcement
/// holds; `None` where `line` announces none.
pub open spec fn announced_duration_text(line: Seq<char>) -> Option<Seq<char>> {
    first_group_of_match(DURATION_PATTERN@, line)
}

} // verus!
