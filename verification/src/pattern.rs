//! Regular expressions, as the `regex` crate matches them.
use vstd::prelude::*;

verus! {

/// For a pattern and a text, the matches that `regex` finds, first to last,
/// each as the list of its groups: the text that the group matched, or nothing
/// where the group took no part. Group zero is the whole match. There is no
/// list at all where `regex` does not accept the pattern.
pub uninterp spec fn regex_captures(pattern: Seq<char>, text: Seq<char>) -> Option<
    Seq<Seq<Option<Seq<char>>>>,
>;

/// A group as a character sequence.
pub open spec fn group_view(group: Option<String>) -> Option<Seq<char>> {
    match group {
        Some(text) => Some(text@),
        None => None,
    }
}

/// The groups of a match as character sequences.
pub open spec fn groups_view(groups: Vec<Option<String>>) -> Seq<Option<Seq<char>>> {
    Seq::new(groups@.len(), |i: int| group_view(groups@[i]))
}

/// The matches as character sequences.
pub open spec fn matches_view(found: Option<Vec<Vec<Option<String>>>>) -> Option<
    Seq<Seq<Option<Seq<char>>>>,
> {
    match found {
        Some(list) => Some(Seq::new(list@.len(), |i: int| groups_view(list@[i]))),
        None => None,
    }
}

/// `Regex::new` and `Regex::captures_iter`: the successive non-overlapping
/// matches of the pattern in the text, each with the text of its groups.
#[verifier::external_body]
pub(crate) fn all_captures(pattern: &str, text: &str) -> (found: Option<Vec<Vec<Option<String>>>>)
    ensures
        matches_view(found) == regex_captures(pattern@, text@),
{
    match regex::Regex::new(pattern) {
        Ok(re) => Some(
            re.captures_iter(text).map(
                |c| c.iter().map(|g| g.map(|m| m.as_str().to_string())).collect(),
            ).collect(),
        ),
        Err(_) => None,
    }
}

/// The text of group `index` of a match, where the match has such a group and
/// the group took part in it.
pub open spec fn group_text(groups: Seq<Option<Seq<char>>>, index: int) -> Option<Seq<char>> {
    if 0 <= index < groups.len() {
        groups[index]
    } else {
        None
    }
}

/// The text of group `index` of a match.
pub fn group(groups: &Vec<Option<String>>, index: usize) -> (text: Option<&str>)
    ensures
        match text {
            Some(s) => group_text(groups_view(*groups), index as int) == Some(s@),
            None => group_text(groups_view(*groups), index as int) is None,
        },
{
    if index < groups.len() {
        match &groups[index] {
            Some(s) => Some(s.as_str()),
            None => None,
        }
    } else {
        None
    }
}

} // verus!
