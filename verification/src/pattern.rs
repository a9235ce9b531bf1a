//! What the `regex` crate finds in a text.

use vstd::prelude::*;

verus! {

/// The leftmost match of a pattern in a text, and the text that follows it:
/// `None` where the pattern does not compile or nothing matches.
pub uninterp spec fn regex_find(pattern: Seq<char>, haystack: Seq<char>) -> Option<
    (Seq<char>, Seq<char>),
>;

/// What a group of a pattern holds in the leftmost match in a text: `None`
/// where the pattern does not compile, nothing matches, or the group is not
/// part of the match.
pub uninterp spec fn regex_group(pattern: Seq<char>, haystack: Seq<char>, group: nat) -> Option<
    Seq<char>,
>;

/// Compiles `pattern` with `regex::Regex::new` and searches `haystack` with
/// `Regex::find`; hands back the matched text and what follows the match.
/// Nothing is proved of the result: it is what the crate returns, named
/// `regex_find`.
#[verifier::external_body]
pub(crate) fn find_first(pattern: &str, haystack: &str) -> (r: Option<(String, String)>)
    ensures
        r is Some == regex_find(pattern@, haystack@) is Some,
        r matches Some(found) ==> (found.0@, found.1@) == regex_find(pattern@, haystack@)->0,
{
    let re = regex::Regex::new(pattern).ok()?;
    let found = re.find(haystack)?;
    Some((found.as_str().to_string(), haystack[found.end()..].to_string()))
}

/// Compiles `pattern` with `regex::Regex::new`, searches `haystack` with
/// `Regex::captures` and reads one group with `Captures::get`. Nothing is
/// proved of the result: it is what the crate returns, named `regex_group`.
#[verifier::external_body]
pub(crate) fn group_of_first(pattern: &str, haystack: &str, group: usize) -> (r: Option<String>)
    ensures
        r is Some == regex_group(pattern@, haystack@, group as nat) is Some,
        r is Some ==> r->0@ == regex_group(pattern@, haystack@, group as nat)->0,
{
    let re = regex::Regex::new(pattern).ok()?;
    let captures = re.captures(haystack)?;
    captures.get(group).map(|found| found.as_str().to_string())
}

} // verus!
