//! Pattern search over text, done by the `regex` crate.

use vstd::prelude::*;

verus! {

/// The text of capture group `group` in the leftmost match of the regular
/// expression `pattern` in `haystack`, as `regex::Regex::captures` reports
/// it for the expression that `regex::Regex::new` builds from `pattern`.
/// It is `None` where the haystack holds no match, where the group took no
/// part in the match or does not exist, and where `pattern` is not an
/// expression that the crate accepts.
pub uninterp spec fn regex_capture(pattern: Seq<char>, haystack: Seq<char>, group: nat) -> Option<
    Seq<char>,
>;

/// `haystack` with every match of the regular expression `pattern` replaced
/// by the text `replacement`, taken literally, as `regex::Regex::replace_all`
/// returns it for the replacer `regex::NoExpand`. Where `pattern` is not an
/// expression that the crate accepts, it is `haystack` itself.
pub uninterp spec fn regex_replace_all(
    pattern: Seq<char>,
    haystack: Seq<char>,
    replacement: Seq<char>,
) -> Seq<char>;

/// Compiles `pattern` with `regex::Regex::new`, searches `haystack` with
/// `regex::Regex::captures` and copies out the text of one capture group
/// (`regex::Captures::get`, `regex::Match::as_str`). Nothing is claimed of
/// the result but that it is the one the crate computes from these three
/// arguments.
#[verifier::external_body]
pub(crate) fn capture(pattern: &str, haystack: &str, group: usize) -> (r: Option<String>)
    ensures
        r.deep_view() == regex_capture(pattern@, haystack@, group as nat),
{
    match regex::Regex::new(pattern) {
        Ok(re) => match re.captures(haystack) {
            Some(found) => match found.get(group) {
                Some(part) => Some(part.as_str().to_owned()),
                None => None,
            },
            None => None,
        },
        Err(_) => None,
    }
}

/// Compiles `pattern` with `regex::Regex::new` and replaces every match in
/// `haystack` with `regex::Regex::replace_all`, the replacement being the
/// literal text `replacement` (`regex::NoExpand`). Nothing is claimed of the
/// result but that it is the one the crate computes from these three
/// arguments.
#[verifier::external_body]
pub(crate) fn replace_all(pattern: &str, haystack: &str, replacement: &str) -> (r: String)
    ensures
        r@ == regex_replace_all(pattern@, haystack@, replacement@),
{
    match regex::Regex::new(pattern) {
        Ok(re) => re.replace_all(haystack, regex::NoExpand(replacement)).into_owned(),
        Err(_) => haystack.to_owned(),
    }
}

} // verus!
