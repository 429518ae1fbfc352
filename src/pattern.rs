//! What the library assumes of the `regex` crate.
use regex::Regex;
use vstd::prelude::*;

verus! {

#[verifier::external_type_specification]
#[verifier::external_body]
pub struct ExRegex(Regex);

/// The successive non-overlapping matches of a regex in a line, left to right,
/// each given by the text of its first capture group, or `None` where that group
/// took no part in the match.
pub uninterp spec fn captures_of(re: Regex, line: Seq<char>) -> Seq<Option<Seq<char>>>;

/// Relies on `regex::Regex::captures_iter`, with `Captures::get(1)` and
/// `Match::as_str` on each item: the text of the first group of every
/// non-overlapping match, in order. The result depends on the regex and the line
/// alone.
#[verifier::external_body]
pub(crate) fn first_groups(re: &Regex, line: &str) -> (r: Vec<Option<String>>)
    ensures
        r.deep_view() == captures_of(*re, line@),
{
    re.captures_iter(line).map(|c| c.get(1).map(|m| m.as_str().to_string())).collect()
}

} // verus!
