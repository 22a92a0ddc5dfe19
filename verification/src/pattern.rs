//! Regular expressions, which the `regex` crate matches.

use vstd::prelude::*;

verus! {

/// What the first group of `pattern` holds in the leftmost match of the
/// pattern in `text`: `None` where the pattern is no regular expression that
/// `regex` compiles, where nothing in `text` matches it, and where the match
/// leaves its first group out.
pub uninterp spec fn first_group_of(pattern: Seq<char>, text: Seq<char>) -> Option<Seq<char>>;

/// `regex::Regex::new` on `pattern`, then `Regex::captures` on `text` and
/// group 1 of what it finds. The contract claims that the outcome depends on
/// the pattern and the text alone, and nothing of what is matched.
#[verifier::external_body]
pub(crate) fn first_group(pattern: &str, text: &str) -> (group: Option<String>)
    ensures
        match group {
            Some(found) => first_group_of(pattern@, text@) == Some(found@),
            None => first_group_of(pattern@, text@) is None,
        },
{
    let regex = match regex::Regex::new(pattern) {
        Ok(regex) => regex,
        Err(_) => return None,
    };
    match regex.captures(text) {
        Some(captures) => match captures.get(1) {
            Some(found) => Some(found.as_str().to_owned()),
            None => None,
        },
        None => None,
    }
}

} // verus!
