//! Filters: regular expressions matched against an entry's file name.
use vstd::prelude::*;

verus! {

#[verifier::external_type_specification]
#[verifier::external_body]
pub struct ExRegexError(regex::Error);

/// `Regex::new` accepts this pattern.
pub uninterp spec fn pattern_is_valid(pattern: Seq<char>) -> bool;

/// The compiled pattern matches somewhere in the text.
pub uninterp spec fn pattern_matches(pattern: Seq<char>, text: Seq<char>) -> bool;

/// Relies on regex::Regex::new, which accepts or rejects a pattern on its
/// text alone, and on regex::Regex::is_match, whose answer depends on the
/// pattern and the haystack alone.
#[verifier::external_body]
fn regex_is_match(pattern: &str, haystack: &str) -> (r: Result<bool, regex::Error>)
    ensures
        r is Ok <==> pattern_is_valid(pattern@),
        r matches Ok(m) ==> m == pattern_matches(pattern@, haystack@),
{
    let re = regex::Regex::new(pattern)?;
    Ok(re.is_match(haystack))
}

/// Whether `filter` matches `file_name`; `None` when the filter is not a
/// valid regular expression.
pub fn filter_matches(filter: &str, file_name: &str) -> (r: Option<bool>)
    ensures
        r is Some <==> pattern_is_valid(filter@),
        r matches Some(m) ==> m == pattern_matches(filter@, file_name@),
{
    match regex_is_match(filter, file_name) {
        Ok(m) => Some(m),
        Err(_) => None,
    }
}

} // verus!
